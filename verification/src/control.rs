//! The decisions of the loop that boots a module: which command a message
//! is, which peers are linked, and what a module has to offer.

use crate::bytes::same_bytes;
use crate::message::HandleToExchange;
use vstd::prelude::*;
use vstd::string::StringSliceAdditionalSpecFns;

verus! {

/// What the controller asks of a module.
#[derive(Clone, Copy, Debug, PartialEq, Eq, Structural)]
pub enum Command {
    /// Link a peer: a name, a kind of transport and its configuration
    /// follow.
    Link,
    /// Export a service to a linked peer and send back the handle.
    HandleExport,
    /// Import a handle from a linked peer.
    HandleImport,
    /// Start the module and send back what it says.
    Start,
    /// Leave the loop.
    Quit,
}

/// The kind of transport that a link asks for.
#[derive(Clone, Copy, Debug, PartialEq, Eq, Structural)]
pub enum IpcKind {
    DomainSocket,
    Intra,
}

/// Why a command cannot be carried out. Each of these is an error of the
/// controller.
#[derive(Clone, Copy, Debug, PartialEq, Eq, Structural)]
pub enum ControlError {
    /// The peer is linked already.
    AlreadyLinked,
    /// The peer is not linked.
    NotLinked,
}

/// The command that `message` spells.
pub open spec fn spec_command(message: &str) -> Option<Command> {
    if message.spec_bytes() == "link".spec_bytes() {
        Some(Command::Link)
    } else if message.spec_bytes() == "handle_export".spec_bytes() {
        Some(Command::HandleExport)
    } else if message.spec_bytes() == "handle_import".spec_bytes() {
        Some(Command::HandleImport)
    } else if message.spec_bytes() == "start".spec_bytes() {
        Some(Command::Start)
    } else if message.spec_bytes() == "quit".spec_bytes() {
        Some(Command::Quit)
    } else {
        None
    }
}

/// The kind of transport that `ipc_type` spells.
pub open spec fn spec_ipc_kind(ipc_type: &str) -> Option<IpcKind> {
    if ipc_type.spec_bytes() == "DomainSocket".spec_bytes() {
        Some(IpcKind::DomainSocket)
    } else if ipc_type.spec_bytes() == "Intra".spec_bytes() {
        Some(IpcKind::Intra)
    } else {
        None
    }
}

/// Whether the loop answers `command` with "done" once it is carried out:
/// every command but quit.
pub open spec fn spec_acknowledged(command: Command) -> bool {
    command != Command::Quit
}

/// The command that `message` spells, if it spells one.
pub fn parse_command(message: &str) -> (command: Option<Command>)
    ensures
        command == spec_command(message),
{
    let bytes = message.as_bytes();
    if same_bytes(bytes, "link".as_bytes()) {
        Some(Command::Link)
    } else if same_bytes(bytes, "handle_export".as_bytes()) {
        Some(Command::HandleExport)
    } else if same_bytes(bytes, "handle_import".as_bytes()) {
        Some(Command::HandleImport)
    } else if same_bytes(bytes, "start".as_bytes()) {
        Some(Command::Start)
    } else if same_bytes(bytes, "quit".as_bytes()) {
        Some(Command::Quit)
    } else {
        None
    }
}

/// The kind of transport that `ipc_type` spells, if it spells one.
pub fn parse_ipc_kind(ipc_type: &str) -> (kind: Option<IpcKind>)
    ensures
        kind == spec_ipc_kind(ipc_type),
{
    let bytes = ipc_type.as_bytes();
    if same_bytes(bytes, "DomainSocket".as_bytes()) {
        Some(IpcKind::DomainSocket)
    } else if same_bytes(bytes, "Intra".as_bytes()) {
        Some(IpcKind::Intra)
    } else {
        None
    }
}

/// Whether the loop answers `command` with "done" once it is carried out.
pub fn acknowledged(command: Command) -> (yes: bool)
    ensures
        yes == spec_acknowledged(command),
{
    match command {
        Command::Quit => false,
        _ => true,
    }
}

/// The names of the peers that a module is linked to.
pub struct Links {
    names: Vec<String>,
}

impl View for Links {
    type V = Seq<Seq<char>>;

    closed spec fn view(&self) -> Seq<Seq<char>> {
        Seq::new(self.names@.len(), |i: int| self.names@[i]@)
    }
}

impl Links {
    /// No links.
    pub fn new() -> (links: Links)
        ensures
            links@ == Seq::<Seq<char>>::empty(),
    {
        let links = Links { names: Vec::new() };
        proof {
            assert(links@ =~= Seq::<Seq<char>>::empty());
        }
        links
    }

    /// Whether a peer of that name is linked.
    pub fn is_linked(&self, name: &String) -> (yes: bool)
        ensures
            yes == self@.contains(name@),
    {
        let mut i: usize = 0;
        while i < self.names.len()
            invariant
                i <= self.names@.len(),
                forall|k: int| 0 <= k < i ==> self@[k] != name@,
            decreases self.names@.len() - i,
        {
            if self.names[i].eq(name) {
                proof {
                    assert(self@[i as int] == name@);
                }
                return true;
            }
            i = i + 1;
        }
        false
    }

    /// Links the peer `name`. A peer can be linked once.
    pub fn link(&mut self, name: String) -> (r: Result<(), ControlError>)
        ensures
            match r {
                Ok(_) => !old(self)@.contains(name@) && final(self)@ == old(self)@.push(name@),
                Err(e) => e == ControlError::AlreadyLinked && old(self)@.contains(name@) && final(self)@ == old(self)@,
            },
    {
        if self.is_linked(&name) {
            return Err(ControlError::AlreadyLinked);
        }
        self.names.push(name);
        proof {
            assert(self@ =~= old(self)@.push(name@));
        }
        Ok(())
    }

    /// Checks that the peer `name` is linked, as every export and import
    /// asks.
    pub fn require(&self, name: &String) -> (r: Result<(), ControlError>)
        ensures
            r is Ok <==> self@.contains(name@),
            r matches Err(e) ==> e == ControlError::NotLinked,
    {
        if self.is_linked(name) {
            Ok(())
        } else {
            Err(ControlError::NotLinked)
        }
    }

    /// Number of linked peers.
    pub fn len(&self) -> (n: usize)
        ensures
            n == self@.len(),
    {
        self.names.len()
    }
}

/// What a module offers to the loop that boots it. `Context` is what the
/// runtime binds a linked peer to.
pub trait Bootstrap: Sized {
    /// What the runtime binds a linked peer to.
    type Context;

    /// The module, made from the arguments that the controller sent.
    fn new(args: Vec<u8>) -> Self;

    /// Exports the service named `service_name` to the peer behind
    /// `context`.
    fn export(&mut self, context: &Self::Context, service_name: String) -> HandleToExchange;

    /// Imports the service named `service_name` from the peer behind
    /// `context`.
    fn import(&mut self, context: &Self::Context, service_name: String, exchange: HandleToExchange);

    /// Starts the module. What it says goes back to the controller. A
    /// module may say anything; one that keeps this provided method says the
    /// empty string.
    fn start(&self) -> (said: String)
        default_ensures
            said@ == Seq::<char>::empty(),
    {
        String::new()
    }
}

} // verus!
