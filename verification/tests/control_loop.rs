use remote_trait_object::control::{
    acknowledged, parse_command, parse_ipc_kind, Bootstrap, Command, ControlError, IpcKind, Links,
};
use remote_trait_object::message::HandleToExchange;

struct Quiet;

impl Bootstrap for Quiet {
    type Context = ();

    fn new(_args: Vec<u8>) -> Self {
        Quiet
    }

    fn export(&mut self, _context: &(), _service_name: String) -> HandleToExchange {
        HandleToExchange { epoch: 0, service_id: 1 }
    }

    fn import(&mut self, _context: &(), _service_name: String, _exchange: HandleToExchange) {}
}

#[test]
fn the_five_commands() {
    assert_eq!(parse_command("link"), Some(Command::Link));
    assert_eq!(parse_command("handle_export"), Some(Command::HandleExport));
    assert_eq!(parse_command("handle_import"), Some(Command::HandleImport));
    assert_eq!(parse_command("start"), Some(Command::Start));
    assert_eq!(parse_command("quit"), Some(Command::Quit));
    assert_eq!(parse_command("done"), None);
    assert_eq!(parse_command(""), None);
    assert_eq!(parse_command("Link"), None);
    assert_eq!(parse_command("link "), None);
}

#[test]
fn every_command_but_quit_is_answered() {
    for command in [Command::Link, Command::HandleExport, Command::HandleImport, Command::Start] {
        assert!(acknowledged(command));
    }
    assert!(!acknowledged(Command::Quit));
}

#[test]
fn the_two_kinds_of_transport() {
    assert_eq!(parse_ipc_kind("DomainSocket"), Some(IpcKind::DomainSocket));
    assert_eq!(parse_ipc_kind("Intra"), Some(IpcKind::Intra));
    assert_eq!(parse_ipc_kind("intra"), None);
    assert_eq!(parse_ipc_kind(""), None);
}

#[test]
fn a_peer_is_linked_once() {
    let mut links = Links::new();
    assert_eq!(links.len(), 0);
    assert_eq!(links.require(&"a".to_string()), Err(ControlError::NotLinked));
    assert_eq!(links.link("a".to_string()), Ok(()));
    assert_eq!(links.link("b".to_string()), Ok(()));
    assert_eq!(links.link("a".to_string()), Err(ControlError::AlreadyLinked));
    assert_eq!(links.len(), 2);
    assert!(links.is_linked(&"b".to_string()));
    assert!(!links.is_linked(&"c".to_string()));
    assert_eq!(links.require(&"b".to_string()), Ok(()));
}

#[test]
fn a_module_with_nothing_to_say_says_the_empty_string() {
    let mut module = Quiet::new(vec![1, 2]);
    assert_eq!(module.start(), "");
    assert_eq!(module.export(&(), "x".to_string()).service_id, 1);
    module.import(&(), "x".to_string(), HandleToExchange { epoch: 0, service_id: 1 });
}
