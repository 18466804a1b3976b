use typed_links::convert::{Message, TryFromPayload};
use typed_links::entry::Entry;
use typed_links::filter::LinkMatch;

#[test]
fn app_address_is_tagged_content_encoding() {
    let e = Entry::App {
        entry_type: b"A".to_vec(),
        value: b"B".to_vec(),
    };
    assert_eq!(e.address().digest, vec![1u8, 65u8, 0u8, 66u8]);
}

#[test]
fn other_address_is_tagged_content_encoding() {
    let e = Entry::Other {
        content: b"x".to_vec(),
    };
    assert_eq!(e.address().digest, vec![2u8, 120u8]);
}

#[test]
fn identical_content_gives_identical_address() {
    let a = Entry::App {
        entry_type: b"Msg".to_vec(),
        value: b"{same}".to_vec(),
    };
    let b = Entry::App {
        entry_type: b"Msg".to_vec(),
        value: b"{same}".to_vec(),
    };
    assert_eq!(a.address().digest, b.address().digest);
}

#[test]
fn braced_payload_converts_to_message() {
    let payload = b"{\"text\":\"hi\"}".to_vec();
    let m = Message::try_convert(&payload).unwrap();
    assert_eq!(m.body, payload);
}

#[test]
fn unbraced_payload_fails_conversion() {
    assert!(Message::try_convert(&b"plain".to_vec()).is_err());
    assert!(Message::try_convert(&b"".to_vec()).is_err());
    assert!(Message::try_convert(&b"{".to_vec()).is_err());
    assert!(Message::try_convert(&b"{oops".to_vec()).is_err());
}

#[test]
fn exact_filter_admits_only_its_own_name() {
    let f = LinkMatch::Exactly(b"message_link".to_vec());
    assert!(f.allows(&b"message_link".to_vec()));
    assert!(!f.allows(&b"other_link".to_vec()));
    assert!(!f.allows(&b"".to_vec()));
}

#[test]
fn any_filter_admits_every_name() {
    let f = LinkMatch::Any;
    assert!(f.allows(&b"anything".to_vec()));
    assert!(f.allows(&b"".to_vec()));
}
