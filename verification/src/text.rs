//! Small verified string utilities that the codec is built on: character
//! classification, comparison, splitting on a separator or on CRLF, decimal
//! rendering, and stripping the line terminator off a received line.

use vstd::prelude::*;

verus! {

/// A decimal digit character.
pub open spec fn is_digit(c: char) -> bool {
    48 <= c as u32 <= 57
}

/// Numeric value of a decimal digit character.
pub open spec fn digit_val(c: char) -> int {
    c as u32 - 48
}

/// Splitting `s` on `sep`, scanning from position `i`, where `start` is the
/// beginning of the field currently being read. The top-level entry point is
/// [`split_on`].
pub open spec fn split_scan(s: Seq<char>, sep: char, start: int, i: int) -> Seq<Seq<char>>
    decreases s.len() - i,
{
    if i < 0 || i >= s.len() {
        seq![s.subrange(start, s.len() as int)]
    } else if s[i] == sep {
        seq![s.subrange(start, i)] + split_scan(s, sep, i + 1, i + 1)
    } else {
        split_scan(s, sep, start, i + 1)
    }
}

/// The fields of `s` delimited by `sep`. There is always at least one field;
/// a separator at the end yields a trailing empty field.
pub open spec fn split_on(s: Seq<char>, sep: char) -> Seq<Seq<char>> {
    split_scan(s, sep, 0, 0)
}

/// Every state of the field scan yields at least one field.
pub proof fn lemma_split_scan_len(s: Seq<char>, sep: char, start: int, i: int)
    ensures
        split_scan(s, sep, start, i).len() >= 1,
    decreases s.len() - i,
{
    if i < 0 || i >= s.len() {
    } else if s[i] == sep {
        lemma_split_scan_len(s, sep, i + 1, i + 1);
    } else {
        lemma_split_scan_len(s, sep, start, i + 1);
    }
}

/// Splitting always yields at least one field.
pub proof fn lemma_split_on_len(s: Seq<char>, sep: char)
    ensures
        split_on(s, sep).len() >= 1,
{
    lemma_split_scan_len(s, sep, 0, 0);
}

/// A field scan's first field starts with the character the scan starts on,
/// provided that character is no separator.
pub proof fn lemma_split_scan_first_char(s: Seq<char>, sep: char, start: int, i: int)
    requires
        0 <= start <= i,
        start < s.len(),
        s[start] != sep,
    ensures
        split_scan(s, sep, start, i).len() >= 1,
        split_scan(s, sep, start, i)[0].len() > 0,
        split_scan(s, sep, start, i)[0][0] == s[start],
    decreases s.len() - i,
{
    if i >= s.len() {
    } else if s[i] == sep {
    } else {
        lemma_split_scan_first_char(s, sep, start, i + 1);
    }
}

/// The first field of a split starts with the string's first character,
/// provided that character is no separator.
pub proof fn lemma_split_on_first_char(s: Seq<char>, sep: char)
    requires
        s.len() > 0,
        s[0] != sep,
    ensures
        split_on(s, sep).len() >= 1,
        split_on(s, sep)[0].len() > 0,
        split_on(s, sep)[0][0] == s[0],
{
    lemma_split_scan_first_char(s, sep, 0, 0);
}

/// Whether two string slices hold the same characters.
pub fn str_eq(a: &str, b: &str) -> (r: bool)
    ensures
        r == (a@ == b@),
{
    let a_len = a.unicode_len();
    let b_len = b.unicode_len();
    if a_len != b_len {
        return false;
    }
    let mut i: usize = 0;
    while i < a_len
        invariant
            i <= a_len,
            a_len == a@.len(),
            a_len == b@.len(),
            forall|j: int| 0 <= j < i ==> a@[j] == b@[j],
        decreases a_len - i,
    {
        if a.get_char(i) != b.get_char(i) {
            return false;
        }
        i = i + 1;
    }
    proof {
        assert(a@ =~= b@);
    }
    true
}

/// The fields of `s` delimited by `sep`, as owned strings.
pub fn split_str(s: &str, sep: char) -> (r: Vec<String>)
    ensures
        r.deep_view() == split_on(s@, sep),
        r.len() >= 1,
{
    let len = s.unicode_len();
    let mut fields: Vec<String> = Vec::new();
    let mut start: usize = 0;
    let mut i: usize = 0;
    while i < len
        invariant
            start <= i <= len,
            len == s@.len(),
            split_on(s@, sep) == fields.deep_view() + split_scan(
                s@,
                sep,
                start as int,
                i as int,
            ),
        decreases len - i,
    {
        if s.get_char(i) == sep {
            let field = s.substring_char(start, i).to_owned();
            let ghost old_fields = fields.deep_view();
            fields.push(field);
            proof {
                assert(fields.deep_view() =~= old_fields.push(s@.subrange(
                    start as int,
                    i as int,
                )));
                assert(fields.deep_view() + split_scan(s@, sep, i + 1, i + 1) =~= old_fields
                    + split_scan(s@, sep, start as int, i as int));
            }
            start = i + 1;
        }
        i = i + 1;
    }
    let field = s.substring_char(start, len).to_owned();
    let ghost old_fields = fields.deep_view();
    fields.push(field);
    proof {
        assert(fields.deep_view() =~= old_fields.push(s@.subrange(start as int, len as int)));
        assert(fields.deep_view() =~= split_on(s@, sep));
    }
    fields
}

/// Whether a string holds no line terminator character.
pub fn str_is_clean(s: &str) -> (r: bool)
    ensures
        r == crate::protocol::line_clean(s@),
{
    let len = s.unicode_len();
    let mut i: usize = 0;
    while i < len
        invariant
            i <= len,
            len == s@.len(),
            forall|j: int| 0 <= j < i ==> s@[j] != '\r' && s@[j] != '\n',
        decreases len - i,
    {
        let c = s.get_char(i);
        if c == '\r' || c == '\n' {
            return false;
        }
        i = i + 1;
    }
    true
}

/// An ASCII whitespace character, as trimmed off the end of wire text.
pub open spec fn is_ws(c: char) -> bool {
    c == ' ' || c == '\t' || c == '\r' || c == '\n'
}

/// `s` with trailing ASCII whitespace removed.
pub open spec fn trimmed_end(s: Seq<char>) -> Seq<char>
    decreases s.len(),
{
    if s.len() > 0 && is_ws(s.last()) {
        trimmed_end(s.drop_last())
    } else {
        s
    }
}

/// The CRLF-terminated lines of `s`, scanning from position `i` with `start`
/// the beginning of the current line; every line of the result carries its
/// CRLF back. The entry point is [`split_lines_spec`].
pub open spec fn crlf_lines(s: Seq<char>, start: int, i: int) -> Seq<Seq<char>>
    decreases s.len() - i,
{
    if i < 0 || i >= s.len() - 1 {
        seq![s.subrange(start, s.len() as int) + "\r\n"@]
    } else if s[i] == '\r' && s[i + 1] == '\n' {
        seq![s.subrange(start, i) + "\r\n"@] + crlf_lines(s, i + 2, i + 2)
    } else {
        crlf_lines(s, start, i + 1)
    }
}

/// Wire text cut into CRLF-terminated lines: trailing whitespace dropped,
/// then one entry per CRLF-delimited line, each carrying its CRLF.
pub open spec fn split_lines_spec(s: Seq<char>) -> Seq<Seq<char>> {
    crlf_lines(trimmed_end(s), 0, 0)
}

/// Whether a character is ASCII whitespace.
fn is_ws_char(c: char) -> (r: bool)
    ensures
        r == is_ws(c),
{
    c == ' ' || c == '\t' || c == '\r' || c == '\n'
}

/// Cut wire text into its CRLF-terminated lines.
pub fn split_lines(text: &str) -> (r: Vec<String>)
    ensures
        r.deep_view() == split_lines_spec(text@),
{
    let len = text.unicode_len();
    proof {
        assert(text@.take(len as int) =~= text@);
    }
    let mut end: usize = len;
    while end > 0 && is_ws_char(text.get_char(end - 1))
        invariant
            end <= len,
            len == text@.len(),
            trimmed_end(text@) == trimmed_end(text@.take(end as int)),
        decreases end,
    {
        proof {
            assert(text@.take(end as int).drop_last() =~= text@.take(end - 1));
        }
        end = end - 1;
    }
    let t = text.substring_char(0, end);
    proof {
        assert(t@ == text@.take(end as int));
        assert(trimmed_end(text@.take(end as int)) == text@.take(end as int));
    }
    let tlen = end;
    let mut lines: Vec<String> = Vec::new();
    let mut start: usize = 0;
    let mut i: usize = 0;
    while tlen - i > 1
        invariant
            start <= i <= tlen,
            tlen == t@.len(),
            split_lines_spec(text@) == lines.deep_view() + crlf_lines(t@, start as int, i as int),
        decreases tlen - i,
    {
        if t.get_char(i) == '\r' && t.get_char(i + 1) == '\n' {
            let mut piece = t.substring_char(start, i).to_owned();
            piece.append("\r\n");
            let ghost before = lines.deep_view();
            lines.push(piece);
            proof {
                assert(lines.deep_view() =~= before.push(
                    t@.subrange(start as int, i as int) + "\r\n"@,
                ));
                assert(lines.deep_view() + crlf_lines(t@, i + 2, i + 2) =~= before + crlf_lines(
                    t@,
                    start as int,
                    i as int,
                ));
            }
            start = i + 2;
            i = i + 2;
        } else {
            i = i + 1;
        }
    }
    let mut piece = t.substring_char(start, tlen).to_owned();
    piece.append("\r\n");
    let ghost before = lines.deep_view();
    lines.push(piece);
    proof {
        assert(lines.deep_view() =~= before.push(
            t@.subrange(start as int, tlen as int) + "\r\n"@,
        ));
        assert(lines.deep_view() =~= split_lines_spec(text@));
    }
    lines
}

/// The character of one decimal digit.
pub open spec fn digit_char(d: nat) -> char {
    ((48 + d) as u8) as char
}

/// The decimal digits of `n`, most significant first.
pub open spec fn dec_digits(n: nat) -> Seq<char>
    decreases n,
{
    if n < 10 {
        seq![digit_char(n)]
    } else {
        dec_digits(n / 10).push(digit_char(n % 10))
    }
}

/// Relies on String::push: appends exactly the one character.
#[verifier::external_body]
fn push_char(s: &mut String, c: char)
    ensures
        final(s)@ == old(s)@.push(c),
{
    s.push(c);
}

/// The character of one decimal digit.
fn digit_to_char(d: u16) -> (c: char)
    requires
        d < 10,
    ensures
        c == digit_char(d as nat),
{
    (48 + d as u8) as char
}

/// Append the decimal rendering of `n`.
pub fn push_decimal(out: &mut String, n: u16)
    ensures
        final(out)@ == old(out)@ + dec_digits(n as nat),
    decreases n,
{
    if n < 10 {
        let ghost before = out@;
        push_char(out, digit_to_char(n));
        proof {
            assert(out@ =~= before + dec_digits(n as nat));
        }
    } else {
        let ghost before = out@;
        push_decimal(out, n / 10);
        push_char(out, digit_to_char(n % 10));
        proof {
            assert(out@ =~= before + dec_digits(n as nat));
        }
    }
}

/// A received line with its terminator removed: a trailing `"\r\n"` or a
/// trailing `"\n"` is dropped, anything else is kept as is.
pub open spec fn strip_line(l: Seq<char>) -> Seq<char> {
    if l.len() >= 2 && l[l.len() - 2] == '\r' && l[l.len() - 1] == '\n' {
        l.take(l.len() - 2)
    } else if l.len() >= 1 && l[l.len() - 1] == '\n' {
        l.take(l.len() - 1)
    } else {
        l
    }
}

/// Remove the line terminator from a received line.
pub fn strip_line_end(line: &str) -> (r: String)
    ensures
        r@ == strip_line(line@),
{
    let len = line.unicode_len();
    if len >= 2 && line.get_char(len - 2) == '\r' && line.get_char(len - 1) == '\n' {
        line.substring_char(0, len - 2).to_owned()
    } else if len >= 1 && line.get_char(len - 1) == '\n' {
        line.substring_char(0, len - 1).to_owned()
    } else {
        line.to_owned()
    }
}

} // verus!
