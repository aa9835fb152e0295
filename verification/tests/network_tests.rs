use poeng_server::network::message::message_of_command;
use poeng_server::network::{Config, Message};

const ID: &str = "936DA01F-9ABD-4D9D-80C7-02AF85C822A8";
const ID_VALUE: u128 = 0x936DA01F9ABD4D9D80C702AF85C822A8;

#[test]
fn config_needs_a_url() {
    let args = vec!["server".to_string()];
    assert_eq!(Config::new(&args).err(), Some("Not enough arguments"));
    let args = vec!["server".to_string(), "127.0.0.1:3012".to_string()];
    assert_eq!(Config::new(&args).unwrap().url, "127.0.0.1:3012");
}

#[test]
fn register_message() {
    match Message::from("register bob") {
        Some((Message::Register(name), cmd)) => {
            assert_eq!(name, "bob");
            assert_eq!(cmd, "register");
        }
        _ => panic!("expected a registration"),
    }
    assert!(Message::from("register").is_none());
    // the prefix is enough: the name is the second word
    match Message::from("registering  alice  extra") {
        Some((Message::Register(name), _)) => assert_eq!(name, "alice"),
        _ => panic!("expected a registration"),
    }
}

#[test]
fn simple_commands() {
    match Message::from(&format!("{} play", ID)) {
        Some((Message::Play(id), cmd)) => {
            assert_eq!(id, ID_VALUE);
            assert_eq!(cmd, "play");
        }
        _ => panic!("expected play"),
    }
    match Message::from(&format!("  {}\tmap ", ID)) {
        Some((Message::MapRequest(id), cmd)) => {
            assert_eq!(id, ID_VALUE);
            assert_eq!(cmd, "map");
        }
        _ => panic!("expected map"),
    }
    assert!(matches!(Message::from(&format!("{} up", ID)), Some((Message::UP(_), _))));
    assert!(matches!(Message::from(&format!("{} player_info", ID)), Some((Message::PlayerInfo(_), _))));
    assert!(matches!(Message::from(&format!("{} destroy", ID)), Some((Message::Destroy(_), _))));
}

#[test]
fn commands_with_arguments() {
    match Message::from(&format!("{} build -3 4 wall", ID)) {
        Some((Message::Build(id, x, y, name), cmd)) => {
            assert_eq!((id, x, y), (ID_VALUE, -3, 4));
            assert_eq!(name, "wall");
            assert_eq!(cmd, "build");
        }
        _ => panic!("expected build"),
    }
    match Message::from(&format!("{} interact 1 2 tree 5 +7", ID)) {
        Some((Message::Interact(_, x, y, name, e, g), _)) => {
            assert_eq!((x, y, e, g), (1, 2, 5, 7));
            assert_eq!(name, "tree");
        }
        _ => panic!("expected interact"),
    }
    match Message::from(&format!("{} consume 12 3", ID)) {
        Some((Message::Consume(_, e, g), _)) => assert_eq!((e, g), (12, 3)),
        _ => panic!("expected consume"),
    }
}

#[test]
fn unreadable_texts_mean_nothing() {
    assert!(Message::from("").is_none());
    assert!(Message::from("not-a-uuid play").is_none());
    assert!(Message::from(ID).is_none());
    assert!(Message::from(&format!("{} dance", ID)).is_none());
}

#[test]
fn checked_reading_refuses_missing_arguments() {
    assert!(Message::from_checked(&format!("{} build 1", ID)).is_none());
    assert!(Message::from_checked(&format!("{} consume -1 2", ID)).is_none());
    assert!(Message::from_checked(&format!("{} interact 1 2 tree x 0", ID)).is_none());
    // a bad identifier means nothing, whatever follows
    assert!(matches!(Message::from_checked("bad build 1"), Some(None)));
    assert!(matches!(Message::from_checked(&format!("{} build 1 2 hut", ID)), Some(Some((Message::Build(..), _)))));
}

fn words_of(text: &str) -> Vec<Vec<char>> {
    text.split_whitespace().map(|w| w.chars().collect()).collect()
}

#[test]
fn command_words_for_a_player() {
    match message_of_command(7, &words_of("x build 3 -4 wall")) {
        Some((Message::Build(id, x, y, name), cmd)) => {
            assert_eq!((id, x, y, name.as_str(), cmd.as_str()), (7, 3, -4, "wall", "build"));
        }
        other => panic!("unexpected {:?}", other),
    }
    match message_of_command(9, &words_of("x consume 12 +1")) {
        Some((Message::Consume(id, e, g), cmd)) => assert_eq!((id, e, g, cmd.as_str()), (9, 12, 1, "consume")),
        other => panic!("unexpected {:?}", other),
    }
    match message_of_command(ID_VALUE, &words_of("x left")) {
        Some((Message::LEFT(id), cmd)) => assert_eq!((id, cmd.as_str()), (ID_VALUE, "left")),
        other => panic!("unexpected {:?}", other),
    }
    assert!(message_of_command(1, &words_of("x fly")).is_none());
}

#[test]
fn identifiers_read_in_every_written_form() {
    let forms = [
        "936da01f9abd4d9d80c702af85c822a8",
        "936DA01F9ABD4D9D80C702AF85C822A8",
        "936da01f-9abd-4d9d-80c7-02af85c822a8",
        "urn:uuid:936da01f-9abd-4d9d-80c7-02af85c822a8",
    ];
    for f in forms.iter() {
        match Message::from(&format!("{} play", f)) {
            Some((Message::Play(id), _)) => assert_eq!(id, ID_VALUE),
            _ => panic!("expected play for {}", f),
        }
    }
    // a misplaced hyphen, a stray digit or a wrong prefix is no identifier
    assert!(Message::from("936da01f9-abd-4d9d-80c7-02af85c822a8 play").is_none());
    assert!(Message::from("936da01f-9abd-4d9d-80c7-02af85c822ag play").is_none());
    assert!(Message::from("urn:uuix:936da01f-9abd-4d9d-80c7-02af85c822a8 play").is_none());
}
