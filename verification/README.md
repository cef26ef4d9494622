# jitsi-meet-signalling

Signalling for Jitsi Meet conferences: the handshake of the XMPP connection, the way into a room, who
is in it, and the sessions that its focus offers. The library is written in Verus; what each function
does is stated in its contract and proved.

The library does no I/O. It is a set of state machines that are handed what arrived and say what to
send and what to do next.

- `src/connection.rs`: the connection, from the WebSocket handshake to the dispatch of elements
- `src/conference.rs`: the conference: entering, presence, participants, sessions
- `src/laws.rs`: what holds of every step and of steps that follow each other
- `src/runs.rs`: what holds of a conference over everything that happens to it
- `src/inbound.rs`, `src/extdisco.rs`: reading what arrives
- `src/stanza.rs`, `src/disco.rs`, `src/element.rs`: what is sent, and how it is written
- `src/sdp.rs`: session descriptions and the session protocol
- `src/colibri.rs`, `src/pinger.rs`: pings between endpoints, and pings of the server
- `src/jid.rs`, `src/text.rs`, `src/util.rs`, `src/error.rs`: what the others share
- `app/`: the network side, with an `Agent` trait for the WebRTC implementation
