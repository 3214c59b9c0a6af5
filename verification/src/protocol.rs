//! The pure protocol codec.
//!
//! Encoding: a command is its text followed by CRLF; a multi-line text body
//! is dot-escaped line by line (a line beginning with `.` is sent with the
//! `.` doubled) and closed by a line holding exactly `.`.
//!
//! Decoding: a response is one or more status lines, each a 3-digit code
//! followed by `-` (continuation) or a space (terminal). A terminal line
//! whose message is the data marker announces a dot-terminated body of data
//! lines, unescaped on receipt. A line whose first space-separated field is
//! the event keyword is an in-band notification and decodes to an
//! [`Event`](crate::types::Event) instead of a status.

use vstd::prelude::*;

use crate::text::{digit_val, is_digit, lemma_split_on_first_char, split_on, split_str, str_eq};
use crate::types::{
    ClientError, ErrorView, Event, EventIdView, EventType, EventTypeView, EventView, StatusLine,
    StatusLineView,
};

verus! {

// ---------------------------------------------------------------------------
// Requests
// ---------------------------------------------------------------------------

/// An outbound request: a single-line command, or a command followed by a
/// multi-line text body to send.
#[derive(Debug)]
pub enum Request {
    /// A single-line command; it must contain no line terminator.
    Command(String),
    /// A command followed by a text body, one entry per line; the body is
    /// dot-escaped and terminated on the wire by a line holding exactly `.`.
    SendText(String, Vec<String>),
}

/// Mathematical model of a request.
pub enum RequestView {
    Command(Seq<char>),
    SendText(Seq<char>, Seq<Seq<char>>),
}

impl View for Request {
    type V = RequestView;

    open spec fn view(&self) -> RequestView {
        match self {
            Request::Command(c) => RequestView::Command(c@),
            Request::SendText(c, lines) => RequestView::SendText(c@, lines.deep_view()),
        }
    }
}

impl DeepView for Request {
    type V = RequestView;

    open spec fn deep_view(&self) -> RequestView {
        self.view()
    }
}

/// A line with no embedded terminator.
pub open spec fn line_clean(l: Seq<char>) -> bool {
    forall|i: int| 0 <= i < l.len() ==> l[i] != '\r' && l[i] != '\n'
}

/// A text body whose every line carries no embedded line terminator.
pub open spec fn lines_clean(lines: Seq<Seq<char>>) -> bool {
    forall|i: int| 0 <= i < lines.len() ==> line_clean(#[trigger] lines[i])
}

/// A well-formed request: the command line and every text line carry no
/// embedded line terminator.
pub open spec fn req_wf(r: RequestView) -> bool {
    match r {
        RequestView::Command(c) => line_clean(c),
        RequestView::SendText(c, lines) => line_clean(c) && lines_clean(lines),
    }
}

/// Whether every line of a text body is free of embedded terminators.
fn strs_all_clean(lines: &Vec<String>) -> (r: bool)
    ensures
        r == lines_clean(lines.deep_view()),
{
    let mut i: usize = 0;
    while i < lines.len()
        invariant
            i <= lines.len(),
            forall|j: int| 0 <= j < i ==> line_clean(#[trigger] lines.deep_view()[j]),
        decreases lines.len() - i,
    {
        if !crate::text::str_is_clean(lines[i].as_str()) {
            proof {
                assert(!line_clean(lines.deep_view()[i as int]));
            }
            return false;
        }
        i = i + 1;
    }
    true
}

impl Request {
    /// Whether the request is well formed: no line of it embeds a line
    /// terminator. Unverified callers test this before handing the request
    /// to the send path.
    pub fn is_well_formed(&self) -> (r: bool)
        ensures
            r == req_wf(self@),
    {
        match self {
            Request::Command(c) => crate::text::str_is_clean(c.as_str()),
            Request::SendText(c, lines) => crate::text::str_is_clean(c.as_str())
                && strs_all_clean(lines),
        }
    }
}

// ---------------------------------------------------------------------------
// Dot-escaping
// ---------------------------------------------------------------------------

/// A text line as sent on the wire: a leading `.` is doubled.
pub open spec fn escaped(l: Seq<char>) -> Seq<char> {
    if l.len() > 0 && l[0] == '.' {
        "."@ + l
    } else {
        l
    }
}

/// A received body line with dot-escaping undone: a leading `.` is dropped.
pub open spec fn unescaped(l: Seq<char>) -> Seq<char> {
    if l.len() > 0 && l[0] == '.' {
        l.drop_first()
    } else {
        l
    }
}

/// The line that closes a text body or a data body.
pub open spec fn is_end_marker(l: Seq<char>) -> bool {
    l == "."@
}

/// Escape one text line for transmission.
pub fn escape_line(line: &str) -> (r: String)
    ensures
        r@ == escaped(line@),
{
    let len = line.unicode_len();
    if len > 0 && line.get_char(0) == '.' {
        let mut out: String = ".".to_owned();
        out.append(line);
        out
    } else {
        line.to_owned()
    }
}

/// Undo dot-escaping on one received body line.
pub fn unescape_line(line: &str) -> (r: String)
    ensures
        r@ == unescaped(line@),
{
    let len = line.unicode_len();
    if len > 0 && line.get_char(0) == '.' {
        let r = line.substring_char(1, len).to_owned();
        proof {
            assert(r@ =~= line@.drop_first());
        }
        r
    } else {
        line.to_owned()
    }
}

/// Escaping one line round-trips through unescaping, and no escaped line is
/// the bare end-of-body marker.
pub proof fn lemma_escape_round_trip(l: Seq<char>)
    ensures
        unescaped(escaped(l)) == l,
        !is_end_marker(escaped(l)),
{
    reveal_strlit(".");
    if l.len() > 0 && l[0] == '.' {
        assert(escaped(l) == "."@ + l);
        assert(("."@ + l)[0] == '.');
        assert(unescaped(escaped(l)) =~= l);
        assert(escaped(l).len() >= 2);
    } else {
        if escaped(l) == "."@ {
            assert(l.len() == 1 && l[0] == '.');
        }
    }
}

/// A text body as sent on the wire, line by line.
pub open spec fn escaped_text(lines: Seq<Seq<char>>) -> Seq<Seq<char>> {
    Seq::new(lines.len(), |i: int| escaped(lines[i]))
}

/// A received body with dot-escaping undone, line by line.
pub open spec fn unescaped_text(lines: Seq<Seq<char>>) -> Seq<Seq<char>> {
    Seq::new(lines.len(), |i: int| unescaped(lines[i]))
}

/// Escaping a whole text body round-trips through unescaping, and no line of
/// the escaped body collides with the end-of-body marker.
pub proof fn lemma_escape_text_round_trip(lines: Seq<Seq<char>>)
    ensures
        unescaped_text(escaped_text(lines)) == lines,
        forall|i: int| 0 <= i < lines.len() ==> !is_end_marker(#[trigger] escaped_text(lines)[i]),
{
    assert forall|i: int| 0 <= i < lines.len() implies !is_end_marker(
        #[trigger] escaped_text(lines)[i],
    ) && unescaped_text(escaped_text(lines))[i] == lines[i] by {
        lemma_escape_round_trip(lines[i]);
    }
    assert(unescaped_text(escaped_text(lines)) =~= lines);
}

// ---------------------------------------------------------------------------
// Encoding
// ---------------------------------------------------------------------------

/// Wire form of a text body: each line escaped and CRLF-terminated, then the
/// end-of-body marker line.
pub open spec fn encode_text_block(lines: Seq<Seq<char>>) -> Seq<char>
    decreases lines.len(),
{
    if lines.len() == 0 {
        "."@ + "\r\n"@
    } else {
        escaped(lines[0]) + "\r\n"@ + encode_text_block(lines.drop_first())
    }
}

/// Wire form of a request.
pub open spec fn encode_request(r: RequestView) -> Seq<char> {
    match r {
        RequestView::Command(c) => c + "\r\n"@,
        RequestView::SendText(c, lines) => c + "\r\n"@ + encode_text_block(lines),
    }
}

/// Serialise a request to its full wire form.
pub fn encode_request_text(request: &Request) -> (r: String)
    ensures
        r@ == encode_request(request@),
{
    match request {
        Request::Command(c) => {
            let mut out = c.clone();
            out.append("\r\n");
            out
        },
        Request::SendText(c, lines) => {
            let ghost full = encode_request(request@);
            let ghost dl = lines.deep_view();
            let mut out = c.clone();
            out.append("\r\n");
            proof {
                assert(dl.skip(0) =~= dl);
                assert(out@ + encode_text_block(dl.skip(0)) =~= full);
            }
            let mut i: usize = 0;
            while i < lines.len()
                invariant
                    i <= lines.len(),
                    dl == lines.deep_view(),
                    dl.len() == lines.len(),
                    out@ + encode_text_block(dl.skip(i as int)) == full,
                decreases lines.len() - i,
            {
                let esc = escape_line(lines[i].as_str());
                let ghost before = out@;
                out.append(esc.as_str());
                out.append("\r\n");
                proof {
                    assert(dl.skip(i as int).len() > 0);
                    assert(dl.skip(i as int)[0] == dl[i as int]);
                    assert(dl.skip(i as int).drop_first() =~= dl.skip(i + 1));
                    assert(encode_text_block(dl.skip(i as int)) == escaped(dl[i as int]) + "\r\n"@
                        + encode_text_block(dl.skip(i + 1)));
                    assert(out@ + encode_text_block(dl.skip(i + 1)) =~= before
                        + encode_text_block(dl.skip(i as int)));
                }
                i = i + 1;
            }
            let ghost before = out@;
            out.append(".");
            out.append("\r\n");
            proof {
                assert(dl.skip(i as int) =~= Seq::<Seq<char>>::empty());
                assert(encode_text_block(dl.skip(i as int)) == "."@ + "\r\n"@);
                assert(out@ =~= before + encode_text_block(dl.skip(i as int)));
            }
            out
        },
    }
}

// ---------------------------------------------------------------------------
// Status lines
// ---------------------------------------------------------------------------

/// A well-formed status line: three digits, then `-` (continuation) or a
/// space (terminal).
pub open spec fn wf_status_line(l: Seq<char>) -> bool {
    l.len() >= 4 && is_digit(l[0]) && is_digit(l[1]) && is_digit(l[2]) && (l[3] == ' ' || l[3]
        == '-')
}

/// Numeric code of a well-formed status line.
pub open spec fn line_code(l: Seq<char>) -> u16 {
    (100 * digit_val(l[0]) + 10 * digit_val(l[1]) + digit_val(l[2])) as u16
}

/// Whether a well-formed status line is a continuation line.
pub open spec fn is_continuation(l: Seq<char>) -> bool {
    l[3] == '-'
}

/// Message of a well-formed status line: everything after code and separator.
pub open spec fn line_message(l: Seq<char>) -> Seq<char> {
    l.skip(4)
}

/// Codes below this bound report success; this code and above report an
/// error and are surfaced as [`ClientError::Ssip`].
pub const ERROR_CODE_FLOOR: u16 = 300;

/// Parse one status line into its code, message and continuation flag.
pub fn parse_status_line(line: &str) -> (r: Result<(StatusLine, bool), ClientError>)
    ensures
        wf_status_line(line@) ==> (r matches Ok(sc) && sc.0@ == (StatusLineView {
            code: line_code(line@),
            message: line_message(line@),
        }) && sc.1 == is_continuation(line@)),
        !wf_status_line(line@) ==> (r matches Err(e) && e@ == ErrorView::InvalidType),
{
    let len = line.unicode_len();
    if len < 4 {
        return Err(ClientError::InvalidType);
    }
    let c0 = line.get_char(0);
    let c1 = line.get_char(1);
    let c2 = line.get_char(2);
    let sep = line.get_char(3);
    if !(48 <= c0 as u32 && c0 as u32 <= 57) || !(48 <= c1 as u32 && c1 as u32 <= 57) || !(48 <= c2
        as u32 && c2 as u32 <= 57) {
        return Err(ClientError::InvalidType);
    }
    if sep != ' ' && sep != '-' {
        return Err(ClientError::InvalidType);
    }
    let code: u16 = 100 * ((c0 as u32 - 48) as u16) + 10 * ((c1 as u32 - 48) as u16) + ((c2 as u32
        - 48) as u16);
    let message = line.substring_char(4, len).to_owned();
    proof {
        assert(message@ =~= line_message(line@));
    }
    Ok((StatusLine { code, message }, sep == '-'))
}

// ---------------------------------------------------------------------------
// In-band events
// ---------------------------------------------------------------------------

/// Keyword that opens an in-band event notification line.
pub open spec fn event_keyword() -> Seq<char> {
    "EVENT"@
}

/// Whether a line is an in-band event notification: its first
/// space-separated field is the event keyword.
pub open spec fn is_event_line(l: Seq<char>) -> bool {
    split_on(l, ' ')[0] == event_keyword()
}

/// Decode of an event line: `EVENT <type> <message-id> <client-id>`, with an
/// index-mark event carrying the mark label as a fifth field.
pub open spec fn parse_event_spec(l: Seq<char>) -> Result<EventView, ErrorView> {
    let fields = split_on(l, ' ');
    if fields.len() == 4 && fields[1] == "begin"@ {
        Ok(
            EventView {
                ntype: EventTypeView::Begin,
                id: EventIdView { message: fields[2], client: fields[3] },
            },
        )
    } else if fields.len() == 4 && fields[1] == "end"@ {
        Ok(
            EventView {
                ntype: EventTypeView::End,
                id: EventIdView { message: fields[2], client: fields[3] },
            },
        )
    } else if fields.len() == 4 && fields[1] == "cancel"@ {
        Ok(
            EventView {
                ntype: EventTypeView::Cancel,
                id: EventIdView { message: fields[2], client: fields[3] },
            },
        )
    } else if fields.len() == 4 && fields[1] == "pause"@ {
        Ok(
            EventView {
                ntype: EventTypeView::Pause,
                id: EventIdView { message: fields[2], client: fields[3] },
            },
        )
    } else if fields.len() == 4 && fields[1] == "resume"@ {
        Ok(
            EventView {
                ntype: EventTypeView::Resume,
                id: EventIdView { message: fields[2], client: fields[3] },
            },
        )
    } else if fields.len() == 5 && fields[1] == "index_mark"@ {
        Ok(
            EventView {
                ntype: EventTypeView::IndexMark(fields[4]),
                id: EventIdView { message: fields[2], client: fields[3] },
            },
        )
    } else {
        Err(ErrorView::InvalidType)
    }
}

/// Whether a received line is an in-band event notification.
pub fn is_event_line_check(line: &str) -> (r: bool)
    ensures
        r == is_event_line(line@),
{
    let fields = split_str(line, ' ');
    str_eq(fields[0].as_str(), "EVENT")
}

/// Decode one in-band event notification line.
pub fn parse_event(line: &str) -> (r: Result<Event, ClientError>)
    ensures
        match r {
            Ok(ev) => parse_event_spec(line@) == Result::<EventView, ErrorView>::Ok(ev@),
            Err(e) => parse_event_spec(line@) == Result::<EventView, ErrorView>::Err(e@),
        },
{
    let fields = split_str(line, ' ');
    if fields.len() == 4 {
        if str_eq(fields[1].as_str(), "begin") {
            return Ok(Event::new(EventType::Begin, fields[2].as_str(), fields[3].as_str()));
        }
        if str_eq(fields[1].as_str(), "end") {
            return Ok(Event::new(EventType::End, fields[2].as_str(), fields[3].as_str()));
        }
        if str_eq(fields[1].as_str(), "cancel") {
            return Ok(Event::new(EventType::Cancel, fields[2].as_str(), fields[3].as_str()));
        }
        if str_eq(fields[1].as_str(), "pause") {
            return Ok(Event::new(EventType::Pause, fields[2].as_str(), fields[3].as_str()));
        }
        if str_eq(fields[1].as_str(), "resume") {
            return Ok(Event::new(EventType::Resume, fields[2].as_str(), fields[3].as_str()));
        }
        return Err(ClientError::InvalidType);
    }
    if fields.len() == 5 {
        if str_eq(fields[1].as_str(), "index_mark") {
            return Ok(
                Event::index_mark(fields[4].clone(), fields[2].as_str(), fields[3].as_str()),
            );
        }
    }
    Err(ClientError::InvalidType)
}

// ---------------------------------------------------------------------------
// Responses and response decoding
// ---------------------------------------------------------------------------

/// Terminal-status message announcing that a dot-terminated data body
/// follows.
pub open spec fn data_marker() -> Seq<char> {
    "OK DATA FOLLOWS"@
}

/// The data marker as text.
pub fn data_marker_text() -> (r: &'static str)
    ensures
        r@ == data_marker(),
{
    "OK DATA FOLLOWS"
}

/// An inbound response.
#[derive(Debug)]
pub enum Response {
    /// A lone terminal status line.
    Status(StatusLine),
    /// Continuation-line messages bundled with the terminal status.
    Lines(Vec<String>, StatusLine),
    /// Continuation-line messages, the terminal status, and a data body.
    Data(Vec<String>, StatusLine, Vec<String>),
    /// An in-band event notification.
    Event(Event),
}

/// Mathematical model of a response.
pub enum ResponseView {
    Status(StatusLineView),
    Lines(Seq<Seq<char>>, StatusLineView),
    Data(Seq<Seq<char>>, StatusLineView, Seq<Seq<char>>),
    Event(EventView),
}

impl View for Response {
    type V = ResponseView;

    open spec fn view(&self) -> ResponseView {
        match self {
            Response::Status(st) => ResponseView::Status(st@),
            Response::Lines(lines, st) => ResponseView::Lines(lines.deep_view(), st@),
            Response::Data(lines, st, body) => ResponseView::Data(
                lines.deep_view(),
                st@,
                body.deep_view(),
            ),
            Response::Event(ev) => ResponseView::Event(ev@),
        }
    }
}

/// Outcome of decoding a sequence of received lines.
pub enum ScanOutcome {
    /// One full response, and the number of lines it consumed.
    Done(ResponseView, int),
    /// A decode failure, and the number of lines consumed up to it.
    Fail(ErrorView, int),
    /// The lines so far do not yet hold a full response.
    NeedMore,
}

/// Decode state while reading the data body that follows a terminal line
/// carrying the data marker. The entry point is [`scan`].
pub open spec fn scan_body(
    lines: Seq<Seq<char>>,
    acc: Seq<Seq<char>>,
    st: StatusLineView,
    body: Seq<Seq<char>>,
    i: int,
) -> ScanOutcome
    decreases lines.len() - i,
{
    if i < 0 || i >= lines.len() {
        ScanOutcome::NeedMore
    } else if is_end_marker(lines[i]) {
        ScanOutcome::Done(ResponseView::Data(acc, st, body), i + 1)
    } else {
        scan_body(lines, acc, st, body.push(unescaped(lines[i])), i + 1)
    }
}

/// Decode state while reading status lines: `acc` holds the continuation
/// messages seen so far, `i` the next line to read. The entry point is
/// [`scan`].
pub open spec fn scan_head(lines: Seq<Seq<char>>, acc: Seq<Seq<char>>, i: int) -> ScanOutcome
    decreases lines.len() - i,
{
    if i < 0 || i >= lines.len() {
        ScanOutcome::NeedMore
    } else {
        let l = lines[i];
        if acc.len() == 0 && is_event_line(l) {
            match parse_event_spec(l) {
                Ok(ev) => ScanOutcome::Done(ResponseView::Event(ev), i + 1),
                Err(e) => ScanOutcome::Fail(e, i + 1),
            }
        } else if !wf_status_line(l) {
            ScanOutcome::Fail(ErrorView::InvalidType, i + 1)
        } else if is_continuation(l) {
            scan_head(lines, acc.push(line_message(l)), i + 1)
        } else {
            let st = StatusLineView { code: line_code(l), message: line_message(l) };
            if line_code(l) >= ERROR_CODE_FLOOR {
                ScanOutcome::Fail(ErrorView::Ssip(st), i + 1)
            } else if line_message(l) == data_marker() {
                scan_body(lines, acc, st, Seq::empty(), i + 1)
            } else if acc.len() == 0 {
                ScanOutcome::Done(ResponseView::Status(st), i + 1)
            } else {
                ScanOutcome::Done(ResponseView::Lines(acc, st), i + 1)
            }
        }
    }
}

/// Decode one response from the front of the received lines: the consumed
/// prefix and its outcome, or `NeedMore` when the lines end mid-response.
pub open spec fn scan(lines: Seq<Seq<char>>) -> ScanOutcome {
    scan_head(lines, Seq::empty(), 0)
}

/// Outcome of one decode attempt over buffered lines.
#[derive(Debug)]
pub enum ParseOutcome {
    /// One full response, and the number of lines it consumed.
    Done(Response, usize),
    /// A decode failure, and the number of lines consumed up to it.
    Fail(ClientError, usize),
    /// The buffered lines do not yet hold a full response.
    NeedMore,
}

impl View for ParseOutcome {
    type V = ScanOutcome;

    open spec fn view(&self) -> ScanOutcome {
        match self {
            ParseOutcome::Done(resp, n) => ScanOutcome::Done(resp@, *n as int),
            ParseOutcome::Fail(e, n) => ScanOutcome::Fail(e@, *n as int),
            ParseOutcome::NeedMore => ScanOutcome::NeedMore,
        }
    }
}

/// Decode one response from the front of the buffered lines (each already
/// stripped of its terminator).
pub fn parse_response(lines: &Vec<String>) -> (r: ParseOutcome)
    ensures
        r@ == scan(lines.deep_view()),
        (r matches ParseOutcome::Done(_, n) ==> n <= lines.len()),
        (r matches ParseOutcome::Fail(_, n) ==> n <= lines.len()),
{
    let ghost dl = lines.deep_view();
    let mut acc: Vec<String> = Vec::new();
    proof {
        assert(acc.deep_view() =~= Seq::<Seq<char>>::empty());
    }
    let mut i: usize = 0;
    loop
        invariant
            i <= lines.len(),
            dl == lines.deep_view(),
            dl.len() == lines.len(),
            scan(dl) == scan_head(dl, acc.deep_view(), i as int),
        decreases lines.len() - i,
    {
        if i >= lines.len() {
            return ParseOutcome::NeedMore;
        }
        let line: &String = &lines[i];
        proof {
            assert(line@ == dl[i as int]);
        }
        if acc.len() == 0 && is_event_line_check(line.as_str()) {
            match parse_event(line.as_str()) {
                Ok(ev) => {
                    return ParseOutcome::Done(Response::Event(ev), i + 1);
                },
                Err(e) => {
                    return ParseOutcome::Fail(e, i + 1);
                },
            }
        }
        match parse_status_line(line.as_str()) {
            Err(e) => {
                return ParseOutcome::Fail(e, i + 1);
            },
            Ok((status, cont)) => {
                if cont {
                    let ghost acc_before = acc.deep_view();
                    acc.push(status.message);
                    proof {
                        assert(acc.deep_view() =~= acc_before.push(line_message(dl[i as int])));
                    }
                    i = i + 1;
                } else {
                    if status.code >= ERROR_CODE_FLOOR {
                        return ParseOutcome::Fail(ClientError::Ssip(status), i + 1);
                    }
                    if str_eq(status.message.as_str(), data_marker_text()) {
                        let mut body: Vec<String> = Vec::new();
                        let ghost dacc = acc.deep_view();
                        let ghost dst = status@;
                        proof {
                            assert(body.deep_view() =~= Seq::<Seq<char>>::empty());
                            assert(scan_head(dl, dacc, i as int) == scan_body(
                                dl,
                                dacc,
                                dst,
                                Seq::empty(),
                                i + 1,
                            ));
                        }
                        let mut j: usize = i + 1;
                        loop
                            invariant
                                i < j <= lines.len(),
                                dl == lines.deep_view(),
                                dl.len() == lines.len(),
                                dacc == acc.deep_view(),
                                dst == status@,
                                scan(dl) == scan_body(dl, dacc, dst, body.deep_view(), j as int),
                            decreases lines.len() - j,
                        {
                            if j >= lines.len() {
                                return ParseOutcome::NeedMore;
                            }
                            let bl: &String = &lines[j];
                            proof {
                                assert(bl@ == dl[j as int]);
                            }
                            if str_eq(bl.as_str(), ".") {
                                return ParseOutcome::Done(Response::Data(acc, status, body), j + 1);
                            }
                            let ul = unescape_line(bl.as_str());
                            let ghost body_before = body.deep_view();
                            body.push(ul);
                            proof {
                                assert(body.deep_view() =~= body_before.push(unescaped(
                                    dl[j as int],
                                )));
                            }
                            j = j + 1;
                        }
                    }
                    if acc.len() == 0 {
                        return ParseOutcome::Done(Response::Status(status), i + 1);
                    }
                    return ParseOutcome::Done(Response::Lines(acc, status), i + 1);
                }
            },
        }
    }
}

// ---------------------------------------------------------------------------
// Decoding laws
// ---------------------------------------------------------------------------

/// A decode that completed or failed on a prefix of the lines is unchanged by
/// lines arriving after it.
pub proof fn lemma_scan_body_extend(
    lines: Seq<Seq<char>>,
    ext: Seq<Seq<char>>,
    acc: Seq<Seq<char>>,
    st: StatusLineView,
    body: Seq<Seq<char>>,
    i: int,
)
    requires
        !(scan_body(lines, acc, st, body, i) is NeedMore),
    ensures
        scan_body(lines + ext, acc, st, body, i) == scan_body(lines, acc, st, body, i),
    decreases lines.len() - i,
{
    assert(0 <= i < lines.len());
    assert((lines + ext)[i] == lines[i]);
    if is_end_marker(lines[i]) {
    } else {
        lemma_scan_body_extend(lines, ext, acc, st, body.push(unescaped(lines[i])), i + 1);
    }
}

/// A decode that completed or failed on a prefix of the lines is unchanged by
/// lines arriving after it.
pub proof fn lemma_scan_head_extend(
    lines: Seq<Seq<char>>,
    ext: Seq<Seq<char>>,
    acc: Seq<Seq<char>>,
    i: int,
)
    requires
        !(scan_head(lines, acc, i) is NeedMore),
    ensures
        scan_head(lines + ext, acc, i) == scan_head(lines, acc, i),
    decreases lines.len() - i,
{
    assert(0 <= i < lines.len());
    let l = lines[i];
    assert((lines + ext)[i] == l);
    if acc.len() == 0 && is_event_line(l) {
    } else if !wf_status_line(l) {
    } else if is_continuation(l) {
        lemma_scan_head_extend(lines, ext, acc.push(line_message(l)), i + 1);
    } else {
        let st = StatusLineView { code: line_code(l), message: line_message(l) };
        if line_code(l) >= ERROR_CODE_FLOOR {
        } else if line_message(l) == data_marker() {
            lemma_scan_body_extend(lines, ext, acc, st, Seq::empty(), i + 1);
        }
    }
}

/// Reading a data body never fails: it either completes or needs more input.
pub proof fn lemma_scan_body_no_fail(
    lines: Seq<Seq<char>>,
    acc: Seq<Seq<char>>,
    st: StatusLineView,
    body: Seq<Seq<char>>,
    i: int,
)
    ensures
        !(scan_body(lines, acc, st, body, i) is Fail),
    decreases lines.len() - i,
{
    if i < 0 || i >= lines.len() {
    } else if is_end_marker(lines[i]) {
    } else {
        lemma_scan_body_no_fail(lines, acc, st, body.push(unescaped(lines[i])), i + 1);
    }
}

/// The only decode failures are a malformed line and an error-range status.
pub proof fn lemma_scan_fail_kinds(lines: Seq<Seq<char>>, acc: Seq<Seq<char>>, i: int)
    ensures
        (scan_head(lines, acc, i) matches ScanOutcome::Fail(ev, _) ==> ev is InvalidType
            || ev is Ssip),
    decreases lines.len() - i,
{
    if i < 0 || i >= lines.len() {
    } else {
        let l = lines[i];
        if acc.len() == 0 && is_event_line(l) {
        } else if !wf_status_line(l) {
        } else if is_continuation(l) {
            lemma_scan_fail_kinds(lines, acc.push(line_message(l)), i + 1);
        } else {
            let st = StatusLineView { code: line_code(l), message: line_message(l) };
            if line_code(l) >= ERROR_CODE_FLOOR {
            } else if line_message(l) == data_marker() {
                lemma_scan_body_no_fail(lines, acc, st, Seq::empty(), i + 1);
            }
        }
    }
}

/// A well-formed status line is never an event line: its first
/// space-separated field starts with a digit, not with the event keyword.
pub proof fn lemma_status_line_not_event(l: Seq<char>)
    requires
        wf_status_line(l),
    ensures
        !is_event_line(l),
{
    reveal_strlit("EVENT");
    if is_event_line(l) {
        lemma_split_on_first_char(l, ' ');
        assert(split_on(l, ' ')[0][0] == 'E');
    }
}

/// A response opening with a terminal status line in the error range decodes
/// to the `Ssip` failure carrying that status line, never to a success.
pub proof fn lemma_error_status_surfaces(lines: Seq<Seq<char>>)
    requires
        lines.len() > 0,
        wf_status_line(lines[0]),
        !is_continuation(lines[0]),
        line_code(lines[0]) >= ERROR_CODE_FLOOR,
    ensures
        scan(lines) == ScanOutcome::Fail(
            ErrorView::Ssip(
                StatusLineView { code: line_code(lines[0]), message: line_message(lines[0]) },
            ),
            1,
        ),
{
    lemma_status_line_not_event(lines[0]);
}

/// While every line seen is a continuation line, the decoder keeps asking
/// for more input rather than producing a response.
pub proof fn lemma_continuations_need_more(lines: Seq<Seq<char>>, acc: Seq<Seq<char>>, i: int)
    requires
        forall|j: int| 0 <= j < lines.len() ==> wf_status_line(#[trigger] lines[j])
            && is_continuation(lines[j]),
        i >= 0,
    ensures
        scan_head(lines, acc, i) is NeedMore,
    decreases lines.len() - i,
{
    if i >= lines.len() {
    } else {
        lemma_status_line_not_event(lines[i]);
        lemma_continuations_need_more(lines, acc.push(line_message(lines[i])), i + 1);
    }
}

/// A stream made only of continuation lines never decodes to a response: the
/// decoder reports that the message is incomplete.
pub proof fn lemma_truncated_stream_incomplete(lines: Seq<Seq<char>>)
    requires
        forall|j: int| 0 <= j < lines.len() ==> wf_status_line(#[trigger] lines[j])
            && is_continuation(lines[j]),
    ensures
        scan(lines) is NeedMore,
{
    lemma_continuations_need_more(lines, Seq::empty(), 0);
}

// ---------------------------------------------------------------------------
// Fixed-arity helpers
// ---------------------------------------------------------------------------

/// The continuation-line messages a response carries.
pub open spec fn response_lines(r: ResponseView) -> Seq<Seq<char>> {
    match r {
        ResponseView::Status(_) => Seq::empty(),
        ResponseView::Lines(lines, _) => lines,
        ResponseView::Data(lines, _, _) => lines,
        ResponseView::Event(_) => Seq::empty(),
    }
}

impl Response {
    /// The single payload line of a response expected to carry exactly one.
    pub fn single_line(&self) -> (r: Result<String, ClientError>)
        ensures
            response_lines(self@).len() == 1 ==> (r matches Ok(l) && l@ == response_lines(
                self@,
            )[0]),
            response_lines(self@).len() == 0 ==> (r matches Err(e) && e@
                == ErrorView::TooFewLines),
            response_lines(self@).len() > 1 ==> (r matches Err(e) && e@
                == ErrorView::TooManyLines),
    {
        match self {
            Response::Status(_) => Err(ClientError::TooFewLines),
            Response::Event(_) => Err(ClientError::TooFewLines),
            Response::Lines(lines, _) => Response::pick_single(lines),
            Response::Data(lines, _, _) => Response::pick_single(lines),
        }
    }

    /// The single entry of a line list, or the arity error.
    fn pick_single(lines: &Vec<String>) -> (r: Result<String, ClientError>)
        ensures
            lines@.len() == 1 ==> (r matches Ok(l) && l@ == lines.deep_view()[0]),
            lines@.len() == 0 ==> (r matches Err(e) && e@ == ErrorView::TooFewLines),
            lines@.len() > 1 ==> (r matches Err(e) && e@ == ErrorView::TooManyLines),
    {
        if lines.len() == 1 {
            Ok(lines[0].clone())
        } else if lines.len() == 0 {
            Err(ClientError::TooFewLines)
        } else {
            Err(ClientError::TooManyLines)
        }
    }
}

impl StatusLine {
    /// Check the code against the one expected for the request just sent.
    pub fn expect_code(self, expected: u16) -> (r: Result<StatusLine, ClientError>)
        ensures
            self.code == expected ==> (r matches Ok(st) && st@ == self@),
            self.code != expected ==> (r matches Err(e) && e@ == ErrorView::UnexpectedStatus(
                self.code,
            )),
    {
        if self.code == expected {
            Ok(self)
        } else {
            Err(ClientError::UnexpectedStatus(self.code))
        }
    }
}

} // verus!
