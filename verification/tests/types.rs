use ssip_client::types::{
    CapitalLettersRecognitionMode, ClientError, ClientName, ClientScope, Event, EventId,
    EventType, KeyName, MessageScope, NotificationType, Priority, PunctuationMode, SynthesisVoice,
};

#[test]
fn parse_synthesis_voice() {
    // Voice with dialect
    let v1 =
        SynthesisVoice::from_str("Portuguese (Portugal)+Kaukovalta\tpt\tKaukovalta").unwrap();
    assert_eq!("Portuguese (Portugal)+Kaukovalta", v1.name);
    assert_eq!("pt", v1.language.unwrap());
    assert_eq!("Kaukovalta", v1.dialect.unwrap());

    // Voice without dialect
    let v2 = SynthesisVoice::from_str("Esperanto\teo\tnone").unwrap();
    assert_eq!("Esperanto", v2.name);
    assert_eq!("eo", v2.language.unwrap());
    assert!(matches!(v2.dialect, None));
}

#[test]
fn format_message_scope() {
    assert_eq!("self", MessageScope::Last.to_string().as_str());
    assert_eq!("all", MessageScope::All.to_string().as_str());
    assert_eq!(
        "123",
        MessageScope::Message("123".to_string()).to_string().as_str()
    );
}

#[test]
fn format_client_scope() {
    assert_eq!("self", ClientScope::Current.to_string().as_str());
    assert_eq!("all", ClientScope::All.to_string().as_str());
    assert_eq!("7", ClientScope::Client("7".to_string()).to_string().as_str());
}

#[test]
fn format_priority_and_modes() {
    assert_eq!("progress", Priority::Progress.to_string().as_str());
    assert_eq!("notification", Priority::Notification.to_string().as_str());
    assert_eq!("message", Priority::Message.to_string().as_str());
    assert_eq!("text", Priority::Text.to_string().as_str());
    assert_eq!("important", Priority::Important.to_string().as_str());
    assert_eq!("none", PunctuationMode::NoPunctuation.to_string().as_str());
    assert_eq!("some", PunctuationMode::SomePunctuation.to_string().as_str());
    assert_eq!("most", PunctuationMode::Most.to_string().as_str());
    assert_eq!("all", PunctuationMode::All.to_string().as_str());
    assert_eq!(
        "none",
        CapitalLettersRecognitionMode::NoRecognition.to_string().as_str()
    );
    assert_eq!("spell", CapitalLettersRecognitionMode::Spell.to_string().as_str());
    assert_eq!("icon", CapitalLettersRecognitionMode::Icon.to_string().as_str());
    assert_eq!("begin", NotificationType::Begin.to_string().as_str());
    assert_eq!("index_mark", NotificationType::IndexMark.to_string().as_str());
    assert_eq!("all", NotificationType::All.to_string().as_str());
}

#[test]
fn format_key_name() {
    assert_eq!("space", KeyName::Space.to_string().as_str());
    assert_eq!("double-quote", KeyName::DoubleQuote.to_string().as_str());
    assert_eq!("kp-*", KeyName::KpMultiply.to_string().as_str());
    assert_eq!("f12", KeyName::F12.to_string().as_str());
    assert_eq!("return", KeyName::Return.to_string().as_str());
}

#[test]
fn voice_without_fields() {
    let v = SynthesisVoice::from_str("bare").unwrap();
    assert_eq!("bare", v.name);
    assert!(matches!(v.language, None));
    assert!(matches!(v.dialect, None));
}

#[test]
fn voice_new_copies_fields() {
    let v = SynthesisVoice::new("espeak", Some("en"), None);
    assert_eq!("espeak", v.name);
    assert_eq!("en", v.language.unwrap());
    assert!(matches!(v.dialect, None));
}

#[test]
fn client_name_defaults_component() {
    let n = ClientName::new("joe", "hello");
    assert_eq!("joe", n.user);
    assert_eq!("hello", n.application);
    assert_eq!("main", n.component);
    let n2 = ClientName::with_component("joe", "hello", "tts");
    assert_eq!("tts", n2.component);
}

#[test]
fn event_constructors() {
    let e = Event::begin("21", "3");
    assert!(matches!(e.ntype, EventType::Begin));
    assert_eq!("21", e.id.message);
    assert_eq!("3", e.id.client);
    assert!(matches!(Event::end("1", "2").ntype, EventType::End));
    assert!(matches!(Event::cancel("1", "2").ntype, EventType::Cancel));
    assert!(matches!(Event::pause("1", "2").ntype, EventType::Pause));
    assert!(matches!(Event::resume("1", "2").ntype, EventType::Resume));
    let m = Event::index_mark("mark1".to_string(), "5", "6");
    match m.ntype {
        EventType::IndexMark(label) => assert_eq!("mark1", label),
        _ => panic!("expected an index mark"),
    }
    let id = EventId::new("8", "9");
    assert_eq!("8", id.message);
    assert_eq!("9", id.client);
}

#[test]
fn would_block_maps_to_not_ready() {
    let would_block = std::io::Error::new(std::io::ErrorKind::WouldBlock, "try again");
    assert!(matches!(
        ClientError::from_io_error(would_block),
        ClientError::NotReady
    ));
    let broken = std::io::Error::new(std::io::ErrorKind::BrokenPipe, "gone");
    assert!(matches!(ClientError::from_io_error(broken), ClientError::Io(_)));
    let not_found = std::io::Error::new(std::io::ErrorKind::NotFound, "missing");
    assert!(matches!(
        ClientError::from_io_error(not_found),
        ClientError::Io(_)
    ));
}
