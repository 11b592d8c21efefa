use meshcore_cli::error::CliError;
use meshcore_cli::completion::InteractiveHelper;
use meshcore_cli::interpreter::{command_named, interpret, route_line, CommandName, LineAction};

#[test]
fn commands_by_alias() {
    assert_eq!(command_named("infos"), Some(CommandName::Infos));
    assert_eq!(command_named("I"), Some(CommandName::Infos));
    assert_eq!(command_named("{"), Some(CommandName::Msg));
    assert_eq!(command_named("Apply_To"), Some(CommandName::ApplyTo));
    assert_eq!(command_named("nope"), None);
}

#[test]
fn interpret_splits_arguments() {
    let inv = interpret("  msg Bob hello  world ").ok().unwrap();
    assert_eq!(inv.command, CommandName::Msg);
    assert_eq!(inv.args, vec!["Bob".to_string(), "hello".to_string(), "world".to_string()]);
    assert_eq!(inv.rest, "Bob hello  world");
    let inv = interpret("infos").ok().unwrap();
    assert_eq!(inv.command, CommandName::Infos);
    assert!(inv.args.is_empty());
    assert_eq!(inv.rest, "");
}

#[test]
fn interpret_unknown_and_short() {
    match interpret("frobnicate now") {
        Err(CliError::UnknownCommand(w)) => assert_eq!(w, "frobnicate"),
        other => panic!("unexpected {:?}", other),
    }
    match interpret("msg Bob") {
        Err(CliError::UnknownCommand(w)) => assert_eq!(w, "msg"),
        other => panic!("unexpected {:?}", other),
    }
    assert!(interpret("set_channel 1 name").is_err());
    assert!(interpret("set_channel 1 name key").is_ok());
}

#[test]
fn route_navigation() {
    assert!(matches!(route_line("", false), LineAction::Nothing));
    assert!(matches!(route_line(" QUIT ", false), LineAction::Quit));
    assert!(matches!(route_line("?", true), LineAction::Help));
    assert!(matches!(route_line("to /", false), LineAction::GoRoot));
    assert!(matches!(route_line("to ~", false), LineAction::GoRoot));
    assert!(matches!(route_line("to ..", false), LineAction::GoBack));
    assert!(matches!(route_line("to !", false), LineAction::GoLastSender));
    assert!(matches!(route_line("to", false), LineAction::Nothing));
    match route_line("to Bob%west", false) {
        LineAction::Goto { name, scope } => {
            assert_eq!(name, "Bob");
            assert_eq!(scope, Some("west".to_string()));
        }
        other => panic!("unexpected {:?}", other),
    }
    match route_line("TO alice", false) {
        LineAction::Goto { name, scope } => {
            assert_eq!(name, "alice");
            assert_eq!(scope, None);
        }
        other => panic!("unexpected {:?}", other),
    }
}

#[test]
fn route_chat_and_commands() {
    match route_line("send hi there", true) {
        LineAction::SendToCurrent(m) => assert_eq!(m, "hi there"),
        other => panic!("unexpected {:?}", other),
    }
    assert!(matches!(route_line("send hi", false), LineAction::NoContactSelected));
    match route_line("hello friend", true) {
        LineAction::Chat(m) => assert_eq!(m, "hello friend"),
        other => panic!("unexpected {:?}", other),
    }
    // A command that does not stay a command in chat is sent as text.
    assert!(matches!(route_line("sync_time", true), LineAction::Chat(_)));
    assert!(matches!(route_line("sync_time", false), LineAction::Run(_)));
    assert!(matches!(route_line("/sync_time", true), LineAction::Unknown(_)));
    match route_line("infos", true) {
        LineAction::Run(inv) => assert_eq!(inv.command, CommandName::Infos),
        other => panic!("unexpected {:?}", other),
    }
    match route_line("bogus", false) {
        LineAction::Unknown(w) => assert_eq!(w, "bogus"),
        other => panic!("unexpected {:?}", other),
    }
}

#[test]
fn completes_command_words() {
    let h = InteractiveHelper::new();
    let c = h.complete("req_s");
    assert_eq!(c.start, 0);
    assert_eq!(c.candidates, vec!["req_status".to_string()]);
    let c = h.complete("");
    assert_eq!(c.candidates.len(), h.commands.len());
    let c = h.complete("info");
    assert_eq!(c.candidates, vec!["infos".to_string()]);
}

#[test]
fn completes_contact_names() {
    let mut h = InteractiveHelper::new();
    h.update_contacts(vec!["Alice".to_string(), "Albert".to_string(), "Bob".to_string(), "Émile".to_string()]);
    let c = h.complete("msg al");
    assert_eq!(c.start, 4);
    assert_eq!(c.candidates, vec!["Alice".to_string(), "Albert".to_string()]);
    let c = h.complete("TO ");
    assert_eq!(c.start, 3);
    assert_eq!(c.candidates.len(), 4);
    let c = h.complete("to é");
    assert_eq!(c.candidates, vec!["Émile".to_string()]);
    let c = h.complete("msg Alice hel");
    assert_eq!(c.start, "msg Alice hel".chars().count());
    assert!(c.candidates.is_empty());
    let c = h.complete("infos x");
    assert!(c.candidates.is_empty());
}
