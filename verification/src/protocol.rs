//! The session protocol: a one-byte command exchange.
//!
//! After a connection is established the initiating peer writes exactly
//! one byte — the upload command when it wants to send, the download
//! command when it wants to receive — and the responding peer reads
//! exactly one byte and takes the opposite role. Any other byte, or an
//! initial read of any length but one, is a protocol fault and the session
//! ends before the transfer loop starts.
//!
//! Nothing else is negotiated: buffer size and the validation flag are
//! local configuration on each side, so peers that disagree on validation
//! surface that disagreement only as validation errors on the receiving
//! side.

use vstd::prelude::*;

use crate::errors::{ProtocolFault, SessionError};

verus! {

/// The command byte an initiator sends when it wants to upload.
pub const CMD_UPLOAD: u8 = 0x55;

/// The command byte an initiator sends when it wants to download.
pub const CMD_DOWNLOAD: u8 = 0x44;

/// Which side of the transfer loop a peer runs for one session.
#[derive(Clone, Copy, Debug, PartialEq, Eq, Structural)]
pub enum Role {
    /// Fill a buffer with the pattern and write it until the stream fails.
    Sender,
    /// Read whole buffers, counting and optionally validating them.
    Receiver,
}

/// The command byte the initiator writes for its chosen direction.
pub open spec fn spec_command_byte(upload: bool) -> u8 {
    if upload {
        CMD_UPLOAD
    } else {
        CMD_DOWNLOAD
    }
}

/// Chooses the initiator's command byte: the upload command when the
/// initiator wants to send, the download command otherwise.
pub fn command_byte(upload: bool) -> (r: u8)
    ensures
        r == spec_command_byte(upload),
{
    if upload {
        CMD_UPLOAD
    } else {
        CMD_DOWNLOAD
    }
}

/// The role the initiator takes for its chosen direction.
pub open spec fn spec_initiator_role(upload: bool) -> Role {
    if upload {
        Role::Sender
    } else {
        Role::Receiver
    }
}

/// The initiator's own role: it sends when uploading, receives when
/// downloading.
pub fn initiator_role(upload: bool) -> (r: Role)
    ensures
        r == spec_initiator_role(upload),
{
    if upload {
        Role::Sender
    } else {
        Role::Receiver
    }
}

/// The other side of a role.
pub open spec fn opposite(role: Role) -> Role {
    match role {
        Role::Sender => Role::Receiver,
        Role::Receiver => Role::Sender,
    }
}

/// What the responder decides from its initial read: `n_read` bytes
/// arrived and `cmd` is the first of them.
pub open spec fn spec_respond(n_read: usize, cmd: u8) -> Result<Role, SessionError> {
    if n_read != 1 {
        Err(SessionError::Protocol(ProtocolFault::WrongCommandLength(n_read)))
    } else if cmd == CMD_UPLOAD {
        Ok(Role::Receiver)
    } else if cmd == CMD_DOWNLOAD {
        Ok(Role::Sender)
    } else {
        Err(SessionError::Protocol(ProtocolFault::UnknownCommand(cmd)))
    }
}

/// Dispatches the responder on its initial read of the stream. An upload
/// command makes the responder receive, a download command makes it send;
/// any other byte, or a read of any length but exactly one byte, is a
/// protocol fault that aborts the session before the transfer loop runs.
pub fn respond(n_read: usize, cmd: u8) -> (r: Result<Role, SessionError>)
    ensures
        r == spec_respond(n_read, cmd),
{
    if n_read != 1 {
        Err(SessionError::Protocol(ProtocolFault::WrongCommandLength(n_read)))
    } else if cmd == CMD_UPLOAD {
        Ok(Role::Receiver)
    } else if cmd == CMD_DOWNLOAD {
        Ok(Role::Sender)
    } else {
        Err(SessionError::Protocol(ProtocolFault::UnknownCommand(cmd)))
    }
}

/// Law: the handshake always pairs the two sides up. Whatever direction
/// the initiator picks, a responder that reads the initiator's one command
/// byte takes exactly the opposite role, so one side sends and the other
/// receives.
pub proof fn lemma_handshake_pairs_roles(upload: bool)
    ensures
        spec_respond(1, spec_command_byte(upload)) == Ok::<Role, SessionError>(
            opposite(spec_initiator_role(upload)),
        ),
{
}

/// Law: the responder accepts exactly the two command bytes, and only on
/// a read of exactly one byte; everything else is a protocol fault.
pub proof fn lemma_respond_total(n_read: usize, cmd: u8)
    ensures
        spec_respond(n_read, cmd) is Ok <==> (n_read == 1 && (cmd == CMD_UPLOAD || cmd
            == CMD_DOWNLOAD)),
        spec_respond(n_read, cmd) is Err ==> spec_respond(n_read, cmd) matches Err(
            SessionError::Protocol(_),
        ),
{
}

} // verus!
