//! Signalling for Jitsi Meet conferences: the XMPP connection, the membership of a room, and the
//! sessions that its focus offers.
//!
//! Nothing here touches the network. Each part is a state machine: it is handed what arrived, and
//! says what to send and what to do next.
pub mod colibri;
pub mod conference;
pub mod connection;
pub mod disco;
pub mod element;
pub mod error;
pub mod extdisco;
pub mod inbound;
pub mod jid;
pub mod laws;
pub mod laws_of_conferences;
pub mod laws_of_connections;
pub mod laws_of_reading;
pub mod laws_of_stanzas;
pub mod pinger;
pub mod runs;
pub mod sdp;
pub mod stanza;
pub mod text;
pub mod util;
