//! What can go wrong.
use vstd::prelude::*;

verus! {

/// Why a text is not a JID.
#[derive(Clone, Copy, Debug, PartialEq, Eq, Structural)]
pub enum JidError {
    NoDomain,
    NoResource,
    EmptyNode,
    EmptyResource,
}

/// Why a step of the signalling could not be taken.
#[derive(Clone, Copy, Debug, PartialEq, Eq, Structural)]
pub enum Error {
    InvalidWebSocketUrl,
    MissingHost,
    InvalidDomain(JidError),
    InvalidRoom(JidError),
    InvalidFocus(JidError),
    UnexpectedEof,
    InvalidXml,
    NotOpen,
    NotSuccess,
    NotIq,
    NotPresence,
    NotBindResponse,
    NotDiscoInfo,
    NotServices,
    NotMucUser,
    NotNick,
    BindFailed,
    DiscoFailed,
    NotConnected,
    MissingReady,
    InvalidReady,
    RoomNotReady,
    FocusFailed,
    MissingFrom,
    MissingSender,
    InvalidJid,
    NoNode,
    InvalidNodeFormat,
    NoSession,
    InvalidJingle,
    InvalidJingleJid,
    MalformedFingerprint,
    NoColibriChannel,
    Unwritable,
}

impl Error {
    /// The wording of the error.
    pub open spec fn text(self) -> Seq<char> {
        match self {
            Error::InvalidWebSocketUrl => "invalid WebSocket URL"@,
            Error::MissingHost => "invalid WebSocket URL: missing host"@,
            Error::InvalidDomain(_) => "invalid XMPP domain"@,
            Error::InvalidRoom(_) => "invalid conference name"@,
            Error::InvalidFocus(_) => "invalid focus JID"@,
            Error::UnexpectedEof => "unexpected EOF"@,
            Error::InvalidXml => "invalid XML"@,
            Error::NotOpen => "not an open element"@,
            Error::NotSuccess => "not a success element"@,
            Error::NotIq => "not an IQ"@,
            Error::NotPresence => "not a presence"@,
            Error::NotBindResponse => "not a bind response"@,
            Error::NotDiscoInfo => "not a disco info result"@,
            Error::NotServices => "not a list of external services"@,
            Error::NotMucUser => "not a MUC user element"@,
            Error::NotNick => "not a nick element"@,
            Error::BindFailed => "bind failed"@,
            Error::DiscoFailed => "disco failed"@,
            Error::NotConnected => "not connected (no JID)"@,
            Error::MissingReady => "missing ready attribute on conference IQ"@,
            Error::InvalidReady => "invalid ready attribute on conference IQ"@,
            Error::RoomNotReady => "focus reports room not ready"@,
            Error::FocusFailed => "focus IQ failed"@,
            Error::MissingFrom => "missing from in presence"@,
            Error::MissingSender => "missing from in disco info query"@,
            Error::InvalidJid => "invalid jid"@,
            Error::NoNode => "invalid JID: no node"@,
            Error::InvalidNodeFormat => "invalid JID: invalid node format"@,
            Error::NoSession => "no jingle session to accept"@,
            Error::InvalidJingle => "invalid Jingle IQ"@,
            Error::InvalidJingleJid => "invalid JID"@,
            Error::MalformedFingerprint => "malformed fingerprint"@,
            Error::NoColibriChannel => "no colibri channel"@,
            Error::Unwritable => "Failed to serialise element"@,
        }
    }

    /// The wording of the error.
    pub fn message(&self) -> (r: &'static str)
        ensures
            r@ == self.text(),
    {
        match self {
            Error::InvalidWebSocketUrl => "invalid WebSocket URL",
            Error::MissingHost => "invalid WebSocket URL: missing host",
            Error::InvalidDomain(_) => "invalid XMPP domain",
            Error::InvalidRoom(_) => "invalid conference name",
            Error::InvalidFocus(_) => "invalid focus JID",
            Error::UnexpectedEof => "unexpected EOF",
            Error::InvalidXml => "invalid XML",
            Error::NotOpen => "not an open element",
            Error::NotSuccess => "not a success element",
            Error::NotIq => "not an IQ",
            Error::NotPresence => "not a presence",
            Error::NotBindResponse => "not a bind response",
            Error::NotDiscoInfo => "not a disco info result",
            Error::NotServices => "not a list of external services",
            Error::NotMucUser => "not a MUC user element",
            Error::NotNick => "not a nick element",
            Error::BindFailed => "bind failed",
            Error::DiscoFailed => "disco failed",
            Error::NotConnected => "not connected (no JID)",
            Error::MissingReady => "missing ready attribute on conference IQ",
            Error::InvalidReady => "invalid ready attribute on conference IQ",
            Error::RoomNotReady => "focus reports room not ready",
            Error::FocusFailed => "focus IQ failed",
            Error::MissingFrom => "missing from in presence",
            Error::MissingSender => "missing from in disco info query",
            Error::InvalidJid => "invalid jid",
            Error::NoNode => "invalid JID: no node",
            Error::InvalidNodeFormat => "invalid JID: invalid node format",
            Error::NoSession => "no jingle session to accept",
            Error::InvalidJingle => "invalid Jingle IQ",
            Error::InvalidJingleJid => "invalid JID",
            Error::MalformedFingerprint => "malformed fingerprint",
            Error::NoColibriChannel => "no colibri channel",
            Error::Unwritable => "Failed to serialise element",
        }
    }
}

} // verus!
