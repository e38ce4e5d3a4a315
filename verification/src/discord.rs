//! Deciding which errors of the `discord-rich-presence` IPC client are
//! worth a reconnection.

use discord_rich_presence::error::Error as DiscordError;
use vstd::prelude::*;

verus! {

#[verifier::external_type_specification]
#[verifier::external_body]
pub struct ExDiscordError(discord_rich_presence::error::Error);

/// The kinds of error of `discord_rich_presence::error::Error`.
#[derive(Debug, Clone, Copy, PartialEq, Eq, Structural)]
pub enum DiscordErrorKind {
    DecodeOpcode,
    DecodeHeader,
    RecvUtf8Response,
    JsonParseResponse,
    IpcNotFound,
    IpcConnectionFailed,
    NotConnected,
    ReadError,
    WriteError,
    FlushError,
}

/// The variant of a `discord_rich_presence` error (the error's payload
/// aside, this is all the library reads of it).
pub uninterp spec fn error_kind_of(e: DiscordError) -> DiscordErrorKind;

/// The variant of a `discord_rich_presence` error, without its payload: one
/// arm per variant of `discord_rich_presence::error::Error`.
#[verifier::external_body]
pub(crate) fn error_kind(e: &DiscordError) -> (r: DiscordErrorKind)
    ensures
        r == error_kind_of(*e),
{
    match e {
        DiscordError::DecodeOpcode => DiscordErrorKind::DecodeOpcode,
        DiscordError::DecodeHeader => DiscordErrorKind::DecodeHeader,
        DiscordError::RecvUtf8Response => DiscordErrorKind::RecvUtf8Response,
        DiscordError::JsonParseResponse => DiscordErrorKind::JsonParseResponse,
        DiscordError::IPCNotFound => DiscordErrorKind::IpcNotFound,
        DiscordError::IPCConnectionFailed => DiscordErrorKind::IpcConnectionFailed,
        DiscordError::NotConnected => DiscordErrorKind::NotConnected,
        DiscordError::ReadError(_) => DiscordErrorKind::ReadError,
        DiscordError::WriteError(_) => DiscordErrorKind::WriteError,
        DiscordError::FlushError(_) => DiscordErrorKind::FlushError,
    }
}

/// The errors after which reconnecting may help: the connection is missing
/// or failed, or reading, writing or flushing the socket failed.
pub open spec fn retryable(k: DiscordErrorKind) -> bool {
    match k {
        DiscordErrorKind::NotConnected
        | DiscordErrorKind::IpcConnectionFailed
        | DiscordErrorKind::IpcNotFound
        | DiscordErrorKind::ReadError
        | DiscordErrorKind::WriteError
        | DiscordErrorKind::FlushError => true,
        _ => false,
    }
}

/// Whether an error of this kind is worth a reconnection.
pub fn is_retryable_kind(k: DiscordErrorKind) -> (r: bool)
    ensures
        r == retryable(k),
{
    match k {
        DiscordErrorKind::NotConnected
        | DiscordErrorKind::IpcConnectionFailed
        | DiscordErrorKind::IpcNotFound
        | DiscordErrorKind::ReadError
        | DiscordErrorKind::WriteError
        | DiscordErrorKind::FlushError => true,
        _ => false,
    }
}

/// Whether a `discord_rich_presence` error is worth a reconnection.
pub fn is_retryable(e: &DiscordError) -> (r: bool)
    ensures
        r == retryable(error_kind_of(*e)),
{
    is_retryable_kind(error_kind(e))
}

/// What to do after a failed request on the IPC connection, for a task that
/// keeps connecting and reconnecting apart (the policy of the separate IPC
/// task). The presence connection of the commands does not use it: it
/// reconnects, with back-off, on every error that [`is_retryable`] accepts.
#[derive(Debug, Clone, Copy, PartialEq, Eq, Structural)]
pub enum Recovery {
    /// Connect, then try again.
    Connect,
    /// Close the broken connection, connect, then try again.
    Reconnect,
    /// Give up with the error.
    Fail,
}

/// The recovery for a failed request: connect when there is no
/// connection, reconnect when the socket broke, else give up.
pub open spec fn recovery_for(k: DiscordErrorKind) -> Recovery {
    match k {
        DiscordErrorKind::NotConnected
        | DiscordErrorKind::IpcConnectionFailed
        | DiscordErrorKind::IpcNotFound => Recovery::Connect,
        DiscordErrorKind::ReadError
        | DiscordErrorKind::WriteError
        | DiscordErrorKind::FlushError => Recovery::Reconnect,
        _ => Recovery::Fail,
    }
}

/// The recovery for a failed request.
pub fn recovery(k: DiscordErrorKind) -> (r: Recovery)
    ensures
        r == recovery_for(k),
{
    match k {
        DiscordErrorKind::NotConnected
        | DiscordErrorKind::IpcConnectionFailed
        | DiscordErrorKind::IpcNotFound => Recovery::Connect,
        DiscordErrorKind::ReadError
        | DiscordErrorKind::WriteError
        | DiscordErrorKind::FlushError => Recovery::Reconnect,
        _ => Recovery::Fail,
    }
}

/// Whether a failed connection attempt of the separate IPC task is retried
/// after a pause: only when Discord's socket is missing or refused the
/// connection. (The presence connection of the commands retries on every
/// error that [`is_retryable`] accepts.)
pub fn connect_should_retry(k: DiscordErrorKind) -> (r: bool)
    ensures
        r == (k == DiscordErrorKind::IpcNotFound || k == DiscordErrorKind::IpcConnectionFailed),
{
    match k {
        DiscordErrorKind::IpcNotFound | DiscordErrorKind::IpcConnectionFailed => true,
        _ => false,
    }
}

/// A failed request is recovered from (by connecting again) exactly when
/// its error is retryable, and a failed connection is retried only on
/// retryable errors.
pub proof fn law_recovery_matches_retryable(k: DiscordErrorKind)
    ensures
        (recovery_for(k) != Recovery::Fail) == retryable(k),
        (k == DiscordErrorKind::IpcNotFound || k == DiscordErrorKind::IpcConnectionFailed) ==> retryable(k),
{
}

} // verus!
