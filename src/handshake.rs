use vstd::prelude::*;

use crate::client::{ClientOptions, TestClient};
use crate::document::{doc_keys, doc_strings, insert_i32, new_document};
use crate::topology::IsMasterCommandResponse;
use crate::version::{before_dash, begins_with_version, version_text, ServerVersion};

verus! {

/// The two handshake commands, sent in this order over one reserved session.
#[derive(Clone, Copy, Debug, PartialEq, Eq, Structural)]
pub enum HandshakeCommand {
    /// Topology identity, against the administrative database.
    IsMaster,
    /// Build information, against a working database.
    BuildInfo,
}

/// What the server's side of the handshake delivered.
#[derive(Debug)]
pub enum HandshakeEvent {
    TopologyReply(IsMasterCommandResponse),
    /// The build information's version string.
    BuildInfoReply(String),
    /// A command failed or its reply could not be decoded.
    Failed,
}

/// Why a handshake was given up. There is no retry.
#[derive(Clone, Copy, Debug, PartialEq, Eq, Structural)]
pub enum BootstrapError {
    CommandFailed,
    BadVersion,
    UnexpectedReply,
}

/// What the caller does next.
#[derive(Debug)]
pub enum HandshakeAction {
    Send(HandshakeCommand),
    Ready(TestClient),
    Abort(BootstrapError),
}

/// Progress of the handshake.
#[derive(Debug)]
pub enum SessionHandshake {
    AwaitingTopology { options: ClientOptions },
    AwaitingBuildInfo { options: ClientOptions, server_info: IsMasterCommandResponse },
    Finished,
}

pub open spec fn sends(a: HandshakeAction, c: HandshakeCommand) -> bool {
    a matches HandshakeAction::Send(x) && x == c
}

pub open spec fn aborts(a: HandshakeAction, e: BootstrapError) -> bool {
    a matches HandshakeAction::Abort(x) && x == e
}

impl HandshakeCommand {
    /// Database the command is run against.
    pub fn database(&self) -> (r: String)
        ensures
            r@ == match self {
                HandshakeCommand::IsMaster => seq!['a', 'd', 'm', 'i', 'n'],
                HandshakeCommand::BuildInfo => seq!['t', 'e', 's', 't'],
            },
    {
        match self {
            HandshakeCommand::IsMaster => {
                let r = String::from_str("admin");
                proof {
                    reveal_strlit("admin");
                    assert(r@ =~= seq!['a', 'd', 'm', 'i', 'n']);
                }
                r
            },
            HandshakeCommand::BuildInfo => {
                let r = String::from_str("test");
                proof {
                    reveal_strlit("test");
                    assert(r@ =~= seq!['t', 'e', 's', 't']);
                }
                r
            },
        }
    }
}

/// The command's one key.
pub open spec fn command_key(c: HandshakeCommand) -> Seq<char> {
    match c {
        HandshakeCommand::IsMaster => "isMaster"@,
        HandshakeCommand::BuildInfo => "buildInfo"@,
    }
}

impl HandshakeCommand {
    /// The command as a document: its key, with value 1.
    pub fn to_document(&self) -> (r: bson::Document)
        ensures
            doc_keys(r) == seq![command_key(*self)],
            doc_strings(r).dom() == Set::<Seq<char>>::empty(),
    {
        let mut d = new_document();
        match self {
            HandshakeCommand::IsMaster => insert_i32(&mut d, "isMaster", 1),
            HandshakeCommand::BuildInfo => insert_i32(&mut d, "buildInfo", 1),
        }
        assert(doc_keys(d) =~= seq![command_key(*self)]);
        assert(doc_strings(d).dom() =~= Set::<Seq<char>>::empty());
        d
    }
}

impl SessionHandshake {
    /// Begins a handshake: the topology command goes first.
    pub fn start(options: ClientOptions) -> (r: (SessionHandshake, HandshakeAction))
        ensures
            r.0 == (SessionHandshake::AwaitingTopology { options }),
            sends(r.1, HandshakeCommand::IsMaster),
    {
        (SessionHandshake::AwaitingTopology { options }, HandshakeAction::Send(HandshakeCommand::IsMaster))
    }

    /// Takes in one event. The build command is sent only after a topology
    /// reply; a failure, or a reply out of turn, ends the handshake.
    pub fn step(self, event: HandshakeEvent) -> (r: (SessionHandshake, HandshakeAction))
        ensures
            match (self, event) {
                (
                    SessionHandshake::AwaitingTopology { options },
                    HandshakeEvent::TopologyReply(info),
                ) => r.0 == (SessionHandshake::AwaitingBuildInfo {
                    options,
                    server_info: info,
                }) && sends(r.1, HandshakeCommand::BuildInfo),
                (
                    SessionHandshake::AwaitingBuildInfo { options, server_info },
                    HandshakeEvent::BuildInfoReply(text),
                ) => r.0 == SessionHandshake::Finished && (forall|v: ServerVersion| #[trigger]
                    version_text(v) == before_dash(text@) ==> (r.1 matches HandshakeAction::Ready(
                    c) && c.server_version == v)) && (before_dash(text@).len() == 0 ==> aborts(
                    r.1,
                    BootstrapError::BadVersion,
                )) && (r.1 is Ready || aborts(r.1, BootstrapError::BadVersion)) && (
                r.1 matches HandshakeAction::Ready(c) ==> c.options == options && c.server_info
                    == server_info && begins_with_version(before_dash(text@), c.server_version)),
                (SessionHandshake::Finished, _) => r.0 == SessionHandshake::Finished && aborts(
                    r.1,
                    BootstrapError::UnexpectedReply,
                ),
                (_, HandshakeEvent::Failed) => r.0 == SessionHandshake::Finished && aborts(
                    r.1,
                    BootstrapError::CommandFailed,
                ),
                _ => r.0 == SessionHandshake::Finished && aborts(
                    r.1,
                    BootstrapError::UnexpectedReply,
                ),
            },
    {
        match self {
            SessionHandshake::AwaitingTopology { options } => match event {
                HandshakeEvent::TopologyReply(info) => (
                    SessionHandshake::AwaitingBuildInfo { options, server_info: info },
                    HandshakeAction::Send(HandshakeCommand::BuildInfo),
                ),
                HandshakeEvent::Failed => (
                    SessionHandshake::Finished,
                    HandshakeAction::Abort(BootstrapError::CommandFailed),
                ),
                HandshakeEvent::BuildInfoReply(_) => (
                    SessionHandshake::Finished,
                    HandshakeAction::Abort(BootstrapError::UnexpectedReply),
                ),
            },
            SessionHandshake::AwaitingBuildInfo { options, server_info } => match event {
                HandshakeEvent::BuildInfoReply(text) => {
                    match TestClient::from_handshake(options, server_info, text.as_str()) {
                        Ok(c) => (SessionHandshake::Finished, HandshakeAction::Ready(c)),
                        Err(_) => (
                            SessionHandshake::Finished,
                            HandshakeAction::Abort(BootstrapError::BadVersion),
                        ),
                    }
                },
                HandshakeEvent::Failed => (
                    SessionHandshake::Finished,
                    HandshakeAction::Abort(BootstrapError::CommandFailed),
                ),
                HandshakeEvent::TopologyReply(_) => (
                    SessionHandshake::Finished,
                    HandshakeAction::Abort(BootstrapError::UnexpectedReply),
                ),
            },
            SessionHandshake::Finished => (
                SessionHandshake::Finished,
                HandshakeAction::Abort(BootstrapError::UnexpectedReply),
            ),
        }
    }
}

} // verus!
