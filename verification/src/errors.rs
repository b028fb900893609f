//! Error taxonomy of the probe's core.
//!
//! Configuration faults are caught before any session starts; everything
//! else is fatal to exactly one session and reported to the caller, never
//! retried.

use vstd::prelude::*;

verus! {

/// Why a configuration value was rejected before any session started.
#[derive(Clone, Copy, Debug, PartialEq, Eq, Structural)]
pub enum ConfigError {
    /// The transfer buffer size is zero or not a multiple of the word size.
    BuffSizeNotWordMultiple,
    /// A log-level name is none of the recognised spellings.
    UnknownLogLevel,
    /// A duration string held a unit with no digits before it, or an
    /// unrecognised unit letter.
    MalformedDuration,
    /// A duration string denotes more seconds than a 64-bit count holds.
    DurationTooLarge,
    /// Neither server mode nor client mode was selected.
    NoModeSelected,
}

/// How the one-byte command exchange went wrong.
#[derive(Clone, Copy, Debug, PartialEq, Eq, Structural)]
pub enum ProtocolFault {
    /// The first byte was neither the upload nor the download command.
    UnknownCommand(u8),
    /// The initial read yielded this many bytes instead of exactly one.
    WrongCommandLength(usize),
}

/// A failure that ends one session.
///
/// The server logs it and returns to listening; the client surfaces it to
/// the process boundary.
#[derive(Clone, Copy, Debug, PartialEq, Eq, Structural)]
pub enum SessionError {
    /// The command exchange failed; the transfer loop never started.
    Protocol(ProtocolFault),
    /// The transport failed: timeout, reset, peer closed, or another I/O
    /// fault seen by the caller driving the stream.
    Io,
    /// A received word differed from the fill pattern. Carries the word
    /// actually seen (in the order the validator assembles bytes) and the
    /// index of the first mismatching word: differing low-order bytes hint
    /// at a byte-order mismatch between heterogeneous peers.
    Validation { word: u64, word_index: usize },
}

} // verus!
