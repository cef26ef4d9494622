use jitsi_meet_signalling::error::{Error, JidError};
use jitsi_meet_signalling::jid::{endpoint_id_from_node, BareJid, FullJid, Jid};

fn full(node: Option<&str>, domain: &str, resource: &str) -> FullJid {
    FullJid {
        node: node.map(|n| n.to_string()),
        domain: domain.to_string(),
        resource: resource.to_string(),
    }
}

#[test]
fn full_jid_is_split_at_its_separators() {
    match Jid::parse("native@conference.example.org/a/b@c").ok() {
        Some(Jid::Full(jid)) => {
            assert_eq!(jid.node.as_deref(), Some("native"));
            assert_eq!(jid.domain, "conference.example.org");
            assert_eq!(jid.resource, "a/b@c");
            assert_eq!(jid.to_string(), "native@conference.example.org/a/b@c");
        }
        _ => panic!("not a full JID"),
    }
}

#[test]
fn bare_jid_has_no_resource() {
    match Jid::parse("example.org").ok() {
        Some(Jid::Bare(jid)) => {
            assert_eq!(jid.node, None);
            assert_eq!(jid.domain, "example.org");
            assert_eq!(jid.to_string(), "example.org");
        }
        _ => panic!("not a bare JID"),
    }
    match Jid::parse("a@example.org").ok() {
        Some(jid) => assert_eq!(jid.to_string(), "a@example.org"),
        None => panic!("not a JID"),
    }
}

#[test]
fn reading_as_bare_drops_the_resource() {
    let jid = BareJid::parse("native@conference.example.org/ab12").ok().unwrap();
    assert_eq!(jid.to_string(), "native@conference.example.org");
    assert_eq!(BareJid::parse("@example.org").err(), Some(JidError::EmptyNode));
    assert_eq!(BareJid::parse("").err(), Some(JidError::NoDomain));
}

#[test]
fn malformed_jids_are_refused() {
    assert_eq!(Jid::parse("").err(), Some(JidError::NoDomain));
    assert_eq!(Jid::parse("@example.org").err(), Some(JidError::EmptyNode));
    assert_eq!(Jid::parse("a@").err(), Some(JidError::NoDomain));
    assert_eq!(Jid::parse("a@/r").err(), Some(JidError::NoDomain));
    assert_eq!(Jid::parse("a@example.org/").err(), Some(JidError::EmptyResource));
    assert_eq!(Jid::parse("/r").err(), Some(JidError::NoDomain));
    assert_eq!(Jid::parse("@/").err(), Some(JidError::EmptyNode));
}

#[test]
fn writing_and_reading_a_jid_gives_it_back() {
    let jid = full(Some("ab12-cd"), "example.org", "r/1@2");
    match Jid::parse(&jid.to_string()).ok() {
        Some(Jid::Full(read)) => assert!(read.same(&jid)),
        _ => panic!("not a full JID"),
    }
}

#[test]
fn jids_compare_by_all_parts() {
    let jid = full(Some("a"), "example.org", "r");
    assert!(jid.same(&jid.clone()));
    assert!(!jid.same(&full(None, "example.org", "r")));
    assert!(!jid.same(&full(Some("b"), "example.org", "r")));
    assert!(!jid.same(&full(Some("a"), "example.com", "r")));
    assert!(!jid.same(&full(Some("a"), "example.org", "s")));
    assert!(jid.bare().same(&full(Some("a"), "example.org", "other").bare()));
    assert!(jid.bare().with_resource("r").same(&jid));
}

#[test]
fn endpoint_id_is_the_head_of_the_node() {
    assert_eq!(endpoint_id_from_node("ab12-cd-ef").ok(), Some("ab12"));
    assert_eq!(endpoint_id_from_node("-cd").ok(), Some(""));
    assert_eq!(endpoint_id_from_node("ab12").err(), Some(Error::InvalidNodeFormat));
    assert_eq!(full(Some("ab12-cd"), "example.org", "r").endpoint_id().ok(), Some("ab12"));
    assert_eq!(full(None, "example.org", "r").endpoint_id().err(), Some(Error::NoNode));
    assert_eq!(
        full(Some("ab12-cd"), "example.org", "r").bare().endpoint_id().ok(),
        Some("ab12")
    );
    assert_eq!(full(None, "example.org", "r").bare().endpoint_id().err(), Some(Error::NoNode));
    assert_eq!(
        Jid::Full(full(Some("ab12-cd"), "example.org", "r")).endpoint_id().ok(),
        Some("ab12")
    );
    assert_eq!(
        Jid::Bare(full(Some("ab12"), "example.org", "r").bare()).endpoint_id().err(),
        Some(Error::InvalidNodeFormat)
    );
}

#[test]
fn errors_have_a_wording() {
    assert_eq!(Error::UnexpectedEof.message(), "unexpected EOF");
    assert_eq!(Error::NoSession.message(), "no jingle session to accept");
    assert_eq!(Error::InvalidDomain(JidError::NoDomain).message(), "invalid XMPP domain");
    assert_eq!(Error::NoNode.message(), "invalid JID: no node");
    assert_eq!(Error::RoomNotReady.message(), "focus reports room not ready");
}
