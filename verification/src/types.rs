//! Data model of the protocol: scopes, priorities, modes, events, voices,
//! status lines, client names, and the closed error taxonomy.
//!
//! Every value that the codec serialises has a fixed wire form, given here by
//! a spec function next to the method that renders it.

use vstd::prelude::*;

use crate::text::{dec_digits, lemma_split_on_len, push_decimal, split_on, split_str};

verus! {

/// Return code of a command: a 3-digit number by protocol convention.
pub type ReturnCode = u16;

/// Message identifier.
pub type MessageId = String;

/// Client identifier.
pub type ClientId = String;

/// Message addressing qualifier.
#[derive(Debug, Clone)]
pub enum MessageScope {
    /// Last message from the current client.
    Last,
    /// Messages from all clients.
    All,
    /// One specific message.
    Message(MessageId),
}

/// Wire form of a message scope.
pub open spec fn message_scope_text(s: MessageScope) -> Seq<char> {
    match s {
        MessageScope::Last => "self"@,
        MessageScope::All => "all"@,
        MessageScope::Message(id) => id@,
    }
}

impl MessageScope {
    /// Render the scope in its wire form: `self`, `all`, or the message id.
    pub fn to_string(&self) -> (r: String)
        ensures
            r@ == message_scope_text(*self),
    {
        match self {
            MessageScope::Last => "self".to_owned(),
            MessageScope::All => "all".to_owned(),
            MessageScope::Message(id) => id.clone(),
        }
    }
}

/// Client addressing qualifier.
#[derive(Debug, Clone)]
pub enum ClientScope {
    /// The current client.
    Current,
    /// All clients.
    All,
    /// One specific client.
    Client(ClientId),
}

/// Wire form of a client scope.
pub open spec fn client_scope_text(s: ClientScope) -> Seq<char> {
    match s {
        ClientScope::Current => "self"@,
        ClientScope::All => "all"@,
        ClientScope::Client(id) => id@,
    }
}

impl ClientScope {
    /// Render the scope in its wire form: `self`, `all`, or the client id.
    pub fn to_string(&self) -> (r: String)
        ensures
            r@ == client_scope_text(*self),
    {
        match self {
            ClientScope::Current => "self".to_owned(),
            ClientScope::All => "all".to_owned(),
            ClientScope::Client(id) => id.clone(),
        }
    }
}

/// Server-side queuing class of a submitted message.
#[derive(Debug, Clone)]
pub enum Priority {
    Progress,
    Notification,
    Message,
    Text,
    Important,
}

/// Wire form of a priority.
pub open spec fn priority_text(p: Priority) -> Seq<char> {
    match p {
        Priority::Progress => "progress"@,
        Priority::Notification => "notification"@,
        Priority::Message => "message"@,
        Priority::Text => "text"@,
        Priority::Important => "important"@,
    }
}

impl Priority {
    /// Render the priority in its wire form.
    pub fn to_string(&self) -> (r: String)
        ensures
            r@ == priority_text(*self),
    {
        match self {
            Priority::Progress => "progress".to_owned(),
            Priority::Notification => "notification".to_owned(),
            Priority::Message => "message".to_owned(),
            Priority::Text => "text".to_owned(),
            Priority::Important => "important".to_owned(),
        }
    }
}

/// Punctuation speaking mode.
#[derive(Debug, Clone)]
pub enum PunctuationMode {
    NoPunctuation,
    SomePunctuation,
    Most,
    All,
}

/// Wire form of a punctuation mode.
pub open spec fn punctuation_mode_text(m: PunctuationMode) -> Seq<char> {
    match m {
        PunctuationMode::NoPunctuation => "none"@,
        PunctuationMode::SomePunctuation => "some"@,
        PunctuationMode::Most => "most"@,
        PunctuationMode::All => "all"@,
    }
}

impl PunctuationMode {
    /// Render the mode in its wire form.
    pub fn to_string(&self) -> (r: String)
        ensures
            r@ == punctuation_mode_text(*self),
    {
        match self {
            PunctuationMode::NoPunctuation => "none".to_owned(),
            PunctuationMode::SomePunctuation => "some".to_owned(),
            PunctuationMode::Most => "most".to_owned(),
            PunctuationMode::All => "all".to_owned(),
        }
    }
}

/// Capital letters recognition mode.
#[derive(Debug, Clone)]
pub enum CapitalLettersRecognitionMode {
    NoRecognition,
    Spell,
    Icon,
}

/// Wire form of a capital letters recognition mode.
pub open spec fn capital_letters_mode_text(m: CapitalLettersRecognitionMode) -> Seq<char> {
    match m {
        CapitalLettersRecognitionMode::NoRecognition => "none"@,
        CapitalLettersRecognitionMode::Spell => "spell"@,
        CapitalLettersRecognitionMode::Icon => "icon"@,
    }
}

impl CapitalLettersRecognitionMode {
    /// Render the mode in its wire form.
    pub fn to_string(&self) -> (r: String)
        ensures
            r@ == capital_letters_mode_text(*self),
    {
        match self {
            CapitalLettersRecognitionMode::NoRecognition => "none".to_owned(),
            CapitalLettersRecognitionMode::Spell => "spell".to_owned(),
            CapitalLettersRecognitionMode::Icon => "icon".to_owned(),
        }
    }
}

/// Symbolic key names accepted by the key-press command.
#[derive(Debug, Clone)]
pub enum KeyName {
    Space,
    Underscore,
    DoubleQuote,
    Alt,
    Control,
    Hyper,
    Meta,
    Shift,
    Super,
    Backspace,
    Break,
    Delete,
    Down,
    End,
    Enter,
    Escape,
    F1,
    F2,
    F3,
    F4,
    F5,
    F6,
    F7,
    F8,
    F9,
    F10,
    F11,
    F12,
    F13,
    F14,
    F15,
    F16,
    F17,
    F18,
    F19,
    F20,
    F21,
    F22,
    F23,
    F24,
    Home,
    Insert,
    KpMultiply,
    KpPlus,
    KpMinus,
    KpDot,
    KpDivide,
    Kp0,
    Kp1,
    Kp2,
    Kp3,
    Kp4,
    Kp5,
    Kp6,
    Kp7,
    Kp8,
    Kp9,
    KpEnter,
    Left,
    Menu,
    Next,
    NumLock,
    Pause,
    Print,
    Prior,
    Return,
    Right,
    ScrollLock,
    Tab,
    Up,
    Window,
}

/// Wire form of a symbolic key name.
pub open spec fn key_name_text(k: KeyName) -> Seq<char> {
    match k {
        KeyName::Space => "space"@,
        KeyName::Underscore => "underscore"@,
        KeyName::DoubleQuote => "double-quote"@,
        KeyName::Alt => "alt"@,
        KeyName::Control => "control"@,
        KeyName::Hyper => "hyper"@,
        KeyName::Meta => "meta"@,
        KeyName::Shift => "shift"@,
        KeyName::Super => "super"@,
        KeyName::Backspace => "backspace"@,
        KeyName::Break => "break"@,
        KeyName::Delete => "delete"@,
        KeyName::Down => "down"@,
        KeyName::End => "end"@,
        KeyName::Enter => "enter"@,
        KeyName::Escape => "escape"@,
        KeyName::F1 => "f1"@,
        KeyName::F2 => "f2"@,
        KeyName::F3 => "f3"@,
        KeyName::F4 => "f4"@,
        KeyName::F5 => "f5"@,
        KeyName::F6 => "f6"@,
        KeyName::F7 => "f7"@,
        KeyName::F8 => "f8"@,
        KeyName::F9 => "f9"@,
        KeyName::F10 => "f10"@,
        KeyName::F11 => "f11"@,
        KeyName::F12 => "f12"@,
        KeyName::F13 => "f13"@,
        KeyName::F14 => "f14"@,
        KeyName::F15 => "f15"@,
        KeyName::F16 => "f16"@,
        KeyName::F17 => "f17"@,
        KeyName::F18 => "f18"@,
        KeyName::F19 => "f19"@,
        KeyName::F20 => "f20"@,
        KeyName::F21 => "f21"@,
        KeyName::F22 => "f22"@,
        KeyName::F23 => "f23"@,
        KeyName::F24 => "f24"@,
        KeyName::Home => "home"@,
        KeyName::Insert => "insert"@,
        KeyName::KpMultiply => "kp-*"@,
        KeyName::KpPlus => "kp-+"@,
        KeyName::KpMinus => "kp--"@,
        KeyName::KpDot => "kp-."@,
        KeyName::KpDivide => "kp-/"@,
        KeyName::Kp0 => "kp-0"@,
        KeyName::Kp1 => "kp-1"@,
        KeyName::Kp2 => "kp-2"@,
        KeyName::Kp3 => "kp-3"@,
        KeyName::Kp4 => "kp-4"@,
        KeyName::Kp5 => "kp-5"@,
        KeyName::Kp6 => "kp-6"@,
        KeyName::Kp7 => "kp-7"@,
        KeyName::Kp8 => "kp-8"@,
        KeyName::Kp9 => "kp-9"@,
        KeyName::KpEnter => "kp-enter"@,
        KeyName::Left => "left"@,
        KeyName::Menu => "menu"@,
        KeyName::Next => "next"@,
        KeyName::NumLock => "num-lock"@,
        KeyName::Pause => "pause"@,
        KeyName::Print => "print"@,
        KeyName::Prior => "prior"@,
        KeyName::Return => "return"@,
        KeyName::Right => "right"@,
        KeyName::ScrollLock => "scroll-lock"@,
        KeyName::Tab => "tab"@,
        KeyName::Up => "up"@,
        KeyName::Window => "window"@,
    }
}

impl KeyName {
    /// Render the key name in its wire form.
    pub fn to_string(&self) -> (r: String)
        ensures
            r@ == key_name_text(*self),
    {
        match self {
            KeyName::Space => "space".to_owned(),
            KeyName::Underscore => "underscore".to_owned(),
            KeyName::DoubleQuote => "double-quote".to_owned(),
            KeyName::Alt => "alt".to_owned(),
            KeyName::Control => "control".to_owned(),
            KeyName::Hyper => "hyper".to_owned(),
            KeyName::Meta => "meta".to_owned(),
            KeyName::Shift => "shift".to_owned(),
            KeyName::Super => "super".to_owned(),
            KeyName::Backspace => "backspace".to_owned(),
            KeyName::Break => "break".to_owned(),
            KeyName::Delete => "delete".to_owned(),
            KeyName::Down => "down".to_owned(),
            KeyName::End => "end".to_owned(),
            KeyName::Enter => "enter".to_owned(),
            KeyName::Escape => "escape".to_owned(),
            KeyName::F1 => "f1".to_owned(),
            KeyName::F2 => "f2".to_owned(),
            KeyName::F3 => "f3".to_owned(),
            KeyName::F4 => "f4".to_owned(),
            KeyName::F5 => "f5".to_owned(),
            KeyName::F6 => "f6".to_owned(),
            KeyName::F7 => "f7".to_owned(),
            KeyName::F8 => "f8".to_owned(),
            KeyName::F9 => "f9".to_owned(),
            KeyName::F10 => "f10".to_owned(),
            KeyName::F11 => "f11".to_owned(),
            KeyName::F12 => "f12".to_owned(),
            KeyName::F13 => "f13".to_owned(),
            KeyName::F14 => "f14".to_owned(),
            KeyName::F15 => "f15".to_owned(),
            KeyName::F16 => "f16".to_owned(),
            KeyName::F17 => "f17".to_owned(),
            KeyName::F18 => "f18".to_owned(),
            KeyName::F19 => "f19".to_owned(),
            KeyName::F20 => "f20".to_owned(),
            KeyName::F21 => "f21".to_owned(),
            KeyName::F22 => "f22".to_owned(),
            KeyName::F23 => "f23".to_owned(),
            KeyName::F24 => "f24".to_owned(),
            KeyName::Home => "home".to_owned(),
            KeyName::Insert => "insert".to_owned(),
            KeyName::KpMultiply => "kp-*".to_owned(),
            KeyName::KpPlus => "kp-+".to_owned(),
            KeyName::KpMinus => "kp--".to_owned(),
            KeyName::KpDot => "kp-.".to_owned(),
            KeyName::KpDivide => "kp-/".to_owned(),
            KeyName::Kp0 => "kp-0".to_owned(),
            KeyName::Kp1 => "kp-1".to_owned(),
            KeyName::Kp2 => "kp-2".to_owned(),
            KeyName::Kp3 => "kp-3".to_owned(),
            KeyName::Kp4 => "kp-4".to_owned(),
            KeyName::Kp5 => "kp-5".to_owned(),
            KeyName::Kp6 => "kp-6".to_owned(),
            KeyName::Kp7 => "kp-7".to_owned(),
            KeyName::Kp8 => "kp-8".to_owned(),
            KeyName::Kp9 => "kp-9".to_owned(),
            KeyName::KpEnter => "kp-enter".to_owned(),
            KeyName::Left => "left".to_owned(),
            KeyName::Menu => "menu".to_owned(),
            KeyName::Next => "next".to_owned(),
            KeyName::NumLock => "num-lock".to_owned(),
            KeyName::Pause => "pause".to_owned(),
            KeyName::Print => "print".to_owned(),
            KeyName::Prior => "prior".to_owned(),
            KeyName::Return => "return".to_owned(),
            KeyName::Right => "right".to_owned(),
            KeyName::ScrollLock => "scroll-lock".to_owned(),
            KeyName::Tab => "tab".to_owned(),
            KeyName::Up => "up".to_owned(),
            KeyName::Window => "window".to_owned(),
        }
    }
}

/// Message lifecycle notification class a client can subscribe to.
#[derive(Debug, Clone)]
pub enum NotificationType {
    Begin,
    End,
    Cancel,
    Pause,
    Resume,
    IndexMark,
    All,
}

/// Wire form of a notification type.
pub open spec fn notification_type_text(t: NotificationType) -> Seq<char> {
    match t {
        NotificationType::Begin => "begin"@,
        NotificationType::End => "end"@,
        NotificationType::Cancel => "cancel"@,
        NotificationType::Pause => "pause"@,
        NotificationType::Resume => "resume"@,
        NotificationType::IndexMark => "index_mark"@,
        NotificationType::All => "all"@,
    }
}

impl NotificationType {
    /// Render the notification type in its wire form.
    pub fn to_string(&self) -> (r: String)
        ensures
            r@ == notification_type_text(*self),
    {
        match self {
            NotificationType::Begin => "begin".to_owned(),
            NotificationType::End => "end".to_owned(),
            NotificationType::Cancel => "cancel".to_owned(),
            NotificationType::Pause => "pause".to_owned(),
            NotificationType::Resume => "resume".to_owned(),
            NotificationType::IndexMark => "index_mark".to_owned(),
            NotificationType::All => "all".to_owned(),
        }
    }
}

/// Kind of a lifecycle event reported by the server.
#[derive(Debug, Clone)]
pub enum EventType {
    Begin,
    End,
    Cancel,
    Pause,
    Resume,
    /// An index mark was reached; carries the mark label.
    IndexMark(String),
}

/// Mathematical model of an event type.
pub enum EventTypeView {
    Begin,
    End,
    Cancel,
    Pause,
    Resume,
    IndexMark(Seq<char>),
}

impl View for EventType {
    type V = EventTypeView;

    open spec fn view(&self) -> EventTypeView {
        match self {
            EventType::Begin => EventTypeView::Begin,
            EventType::End => EventTypeView::End,
            EventType::Cancel => EventTypeView::Cancel,
            EventType::Pause => EventTypeView::Pause,
            EventType::Resume => EventTypeView::Resume,
            EventType::IndexMark(mark) => EventTypeView::IndexMark(mark@),
        }
    }
}

/// Identifier of the message and client an event is about.
#[derive(Debug, Clone)]
pub struct EventId {
    /// Message id.
    pub message: String,
    /// Client id.
    pub client: String,
}

/// Mathematical model of an event identifier.
pub struct EventIdView {
    pub message: Seq<char>,
    pub client: Seq<char>,
}

impl View for EventId {
    type V = EventIdView;

    open spec fn view(&self) -> EventIdView {
        EventIdView { message: self.message@, client: self.client@ }
    }
}

impl EventId {
    /// New event identifier.
    pub fn new(message: &str, client: &str) -> (r: Self)
        ensures
            r@ == (EventIdView { message: message@, client: client@ }),
    {
        Self { message: message.to_owned(), client: client.to_owned() }
    }
}

/// Lifecycle notification event, sent by the server outside the
/// request/response cycle.
#[derive(Debug, Clone)]
pub struct Event {
    pub ntype: EventType,
    pub id: EventId,
}

/// Mathematical model of an event.
pub struct EventView {
    pub ntype: EventTypeView,
    pub id: EventIdView,
}

impl View for Event {
    type V = EventView;

    open spec fn view(&self) -> EventView {
        EventView { ntype: self.ntype@, id: self.id@ }
    }
}

impl Event {
    /// New event of the given type.
    pub fn new(ntype: EventType, message: &str, client: &str) -> (r: Event)
        ensures
            r@ == (EventView {
                ntype: ntype@,
                id: EventIdView { message: message@, client: client@ },
            }),
    {
        Event { ntype, id: EventId::new(message, client) }
    }

    /// New begin event.
    pub fn begin(message: &str, client: &str) -> (r: Event)
        ensures
            r@ == (EventView {
                ntype: EventTypeView::Begin,
                id: EventIdView { message: message@, client: client@ },
            }),
    {
        Event::new(EventType::Begin, message, client)
    }

    /// New end event.
    pub fn end(message: &str, client: &str) -> (r: Event)
        ensures
            r@ == (EventView {
                ntype: EventTypeView::End,
                id: EventIdView { message: message@, client: client@ },
            }),
    {
        Event::new(EventType::End, message, client)
    }

    /// New index-mark event carrying the mark label.
    pub fn index_mark(mark: String, message: &str, client: &str) -> (r: Event)
        ensures
            r@ == (EventView {
                ntype: EventTypeView::IndexMark(mark@),
                id: EventIdView { message: message@, client: client@ },
            }),
    {
        Event::new(EventType::IndexMark(mark), message, client)
    }

    /// New cancel event.
    pub fn cancel(message: &str, client: &str) -> (r: Event)
        ensures
            r@ == (EventView {
                ntype: EventTypeView::Cancel,
                id: EventIdView { message: message@, client: client@ },
            }),
    {
        Event::new(EventType::Cancel, message, client)
    }

    /// New pause event.
    pub fn pause(message: &str, client: &str) -> (r: Event)
        ensures
            r@ == (EventView {
                ntype: EventTypeView::Pause,
                id: EventIdView { message: message@, client: client@ },
            }),
    {
        Event::new(EventType::Pause, message, client)
    }

    /// New resume event.
    pub fn resume(message: &str, client: &str) -> (r: Event)
        ensures
            r@ == (EventView {
                ntype: EventTypeView::Resume,
                id: EventIdView { message: message@, client: client@ },
            }),
    {
        Event::new(EventType::Resume, message, client)
    }
}

/// A synthesis voice: name, and optional language and dialect.
#[derive(Debug, PartialEq)]
pub struct SynthesisVoice {
    pub name: String,
    pub language: Option<String>,
    pub dialect: Option<String>,
}

/// Mathematical model of a synthesis voice.
pub struct SynthesisVoiceView {
    pub name: Seq<char>,
    pub language: Option<Seq<char>>,
    pub dialect: Option<Seq<char>>,
}

impl View for SynthesisVoice {
    type V = SynthesisVoiceView;

    open spec fn view(&self) -> SynthesisVoiceView {
        SynthesisVoiceView {
            name: self.name@,
            language: self.language.deep_view(),
            dialect: self.dialect.deep_view(),
        }
    }
}

/// A token standing for an absent language or dialect in a voice record.
pub open spec fn absent_token(s: Seq<char>) -> bool {
    s == "none"@
}

/// An optional voice field: the literal token `none` denotes absence.
pub open spec fn voice_field(token: Option<Seq<char>>) -> Option<Seq<char>> {
    match token {
        Option::Some(s) => if absent_token(s) {
            Option::None
        } else {
            Option::Some(s)
        },
        Option::None => Option::None,
    }
}

/// The field at position `i` of a record, if the record has that many fields.
pub open spec fn record_field(fields: Seq<Seq<char>>, i: int) -> Option<Seq<char>> {
    if fields.len() > i {
        Option::Some(fields[i])
    } else {
        Option::None
    }
}

/// The voice described by one tab-separated record: name, then optional
/// language and dialect, where the token `none` denotes absence.
pub open spec fn voice_of_record(s: Seq<char>) -> SynthesisVoiceView {
    let fields = split_on(s, '\t');
    SynthesisVoiceView {
        name: fields[0],
        language: voice_field(record_field(fields, 1)),
        dialect: voice_field(record_field(fields, 2)),
    }
}

impl SynthesisVoice {
    /// New voice from its parts.
    pub fn new(name: &str, language: Option<&str>, dialect: Option<&str>) -> (r: SynthesisVoice)
        ensures
            r@ == (SynthesisVoiceView {
                name: name@,
                language: language.deep_view(),
                dialect: dialect.deep_view(),
            }),
    {
        SynthesisVoice {
            name: name.to_owned(),
            language: match language {
                Option::Some(s) => Option::Some(s.to_owned()),
                Option::None => Option::None,
            },
            dialect: match dialect {
                Option::Some(s) => Option::Some(s.to_owned()),
                Option::None => Option::None,
            },
        }
    }

    /// Map the literal token `none`, or an absent token, to absence.
    fn parse_none(token: Option<&str>) -> (r: Option<String>)
        ensures
            r.deep_view() == voice_field(token.deep_view()),
    {
        match token {
            Option::Some(s) => {
                if crate::text::str_eq(s, "none") {
                    Option::None
                } else {
                    Option::Some(s.to_owned())
                }
            },
            Option::None => Option::None,
        }
    }

    /// Parse a tab-separated voice record. Parsing never fails: a record is
    /// its name field plus optional language and dialect fields.
    pub fn from_str(s: &str) -> (r: Result<SynthesisVoice, std::io::Error>)
        ensures
            r matches Ok(v) && v@ == voice_of_record(s@),
    {
        let fields = split_str(s, '\t');
        proof {
            lemma_split_on_len(s@, '\t');
        }
        let name = fields[0].clone();
        let language = if fields.len() > 1 {
            SynthesisVoice::parse_none(Option::Some(fields[1].as_str()))
        } else {
            Option::None
        };
        let dialect = if fields.len() > 2 {
            SynthesisVoice::parse_none(Option::Some(fields[2].as_str()))
        } else {
            Option::None
        };
        Ok(SynthesisVoice { name, language, dialect })
    }
}

/// Status line of a response: a 3-digit code and a message. It can report a
/// success or a failure.
#[derive(Debug, PartialEq)]
pub struct StatusLine {
    pub code: ReturnCode,
    pub message: String,
}

/// Rendered form of a status line: the code in decimal, a space, and the
/// message.
pub open spec fn status_line_text(st: StatusLineView) -> Seq<char> {
    dec_digits(st.code as nat) + " "@ + st.message
}

/// Mathematical model of a status line.
pub struct StatusLineView {
    pub code: ReturnCode,
    pub message: Seq<char>,
}

impl View for StatusLine {
    type V = StatusLineView;

    open spec fn view(&self) -> StatusLineView {
        StatusLineView { code: self.code, message: self.message@ }
    }
}

impl StatusLine {
    /// Render the status line as `code message`, the code in decimal.
    pub fn to_string(&self) -> (r: String)
        ensures
            r@ == status_line_text(self@),
    {
        let mut out = String::new();
        push_decimal(&mut out, self.code);
        out.append(" ");
        out.append(self.message.as_str());
        proof {
            assert(out@ =~= status_line_text(self@));
        }
        out
    }
}

/// Client error: an I/O failure, a decode failure, or an error status
/// reported by the server.
#[derive(Debug)]
pub enum ClientError {
    /// Malformed value handed to, or decoded by, the codec.
    InvalidType,
    /// I/O failure other than would-block.
    Io(std::io::Error),
    /// The transport cannot make progress now; retry after the next
    /// readiness notification.
    NotReady,
    /// The server reported an error-range status.
    Ssip(StatusLine),
    /// A fixed-arity response carried fewer lines than expected.
    TooFewLines,
    /// A fixed-arity response carried more lines than expected.
    TooManyLines,
    /// The stream ended before a terminal status line was seen.
    TruncatedMessage,
    /// A syntactically valid code outside the set expected here.
    UnexpectedStatus(ReturnCode),
}

/// Mathematical model of a client error. The payload of an I/O failure is
/// opaque and carries no model.
pub enum ErrorView {
    InvalidType,
    Io,
    NotReady,
    Ssip(StatusLineView),
    TooFewLines,
    TooManyLines,
    TruncatedMessage,
    UnexpectedStatus(ReturnCode),
}

impl View for ClientError {
    type V = ErrorView;

    open spec fn view(&self) -> ErrorView {
        match self {
            ClientError::InvalidType => ErrorView::InvalidType,
            ClientError::Io(_) => ErrorView::Io,
            ClientError::NotReady => ErrorView::NotReady,
            ClientError::Ssip(status) => ErrorView::Ssip(status@),
            ClientError::TooFewLines => ErrorView::TooFewLines,
            ClientError::TooManyLines => ErrorView::TooManyLines,
            ClientError::TruncatedMessage => ErrorView::TruncatedMessage,
            ClientError::UnexpectedStatus(code) => ErrorView::UnexpectedStatus(*code),
        }
    }
}

/// Relies on std::io::Error, held opaquely in [`ClientError::Io`].
#[verifier::external_type_specification]
#[verifier::external_body]
pub struct ExIoError(std::io::Error);

/// Relies on std::io::Error::kind to tell a would-block failure from every
/// other kind.
#[verifier::external_body]
fn io_error_would_block(err: &std::io::Error) -> bool {
    matches!(err.kind(), std::io::ErrorKind::WouldBlock)
}

impl ClientError {
    /// Sort an I/O failure by the would-block verdict already obtained for
    /// it: would-block is not a real failure and becomes [`ClientError::NotReady`];
    /// everything else is surfaced as [`ClientError::Io`].
    pub fn classify_io(err: std::io::Error, would_block: bool) -> (r: ClientError)
        ensures
            (r@ is NotReady) <==> would_block,
            !would_block ==> r@ is Io,
    {
        if would_block {
            ClientError::NotReady
        } else {
            ClientError::Io(err)
        }
    }

    /// Convert an I/O failure: a would-block condition becomes
    /// [`ClientError::NotReady`], every other kind [`ClientError::Io`].
    pub fn from_io_error(err: std::io::Error) -> (r: ClientError)
        ensures
            r@ is NotReady || r@ is Io,
    {
        let would_block = io_error_would_block(&err);
        ClientError::classify_io(err, would_block)
    }
}

/// Client result.
pub type ClientResult<T> = Result<T, ClientError>;

/// Client result consisting in a single status line.
pub type ClientStatus = ClientResult<StatusLine>;

/// Identity a client declares once at connection setup.
#[derive(Debug, Clone)]
pub struct ClientName {
    pub user: String,
    pub application: String,
    pub component: String,
}

/// Mathematical model of a client name.
pub struct ClientNameView {
    pub user: Seq<char>,
    pub application: Seq<char>,
    pub component: Seq<char>,
}

impl View for ClientName {
    type V = ClientNameView;

    open spec fn view(&self) -> ClientNameView {
        ClientNameView {
            user: self.user@,
            application: self.application@,
            component: self.component@,
        }
    }
}

impl ClientName {
    /// New client name with the default component, `main`.
    pub fn new(user: &str, application: &str) -> (r: Self)
        ensures
            r@ == (ClientNameView { user: user@, application: application@, component: "main"@ }),
    {
        ClientName::with_component(user, application, "main")
    }

    /// New client name with an explicit component.
    pub fn with_component(user: &str, application: &str, component: &str) -> (r: Self)
        ensures
            r@ == (ClientNameView {
                user: user@,
                application: application@,
                component: component@,
            }),
    {
        ClientName {
            user: user.to_owned(),
            application: application.to_owned(),
            component: component.to_owned(),
        }
    }
}

} // verus!
