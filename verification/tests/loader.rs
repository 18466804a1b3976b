use typed_links::convert::Message;
use typed_links::entry::Entry;
use typed_links::loader::{
    get_links_and_load_type, get_links_and_load_type_with_count, FetchError, GetLinksLoadResult,
    LoadAttempt, SystemicError,
};

fn app(entry_type: &str, value: &str) -> Entry {
    Entry::App {
        entry_type: entry_type.as_bytes().to_vec(),
        value: value.as_bytes().to_vec(),
    }
}

fn other(content: &str) -> Entry {
    Entry::Other {
        content: content.as_bytes().to_vec(),
    }
}

fn mixed_attempts() -> Vec<LoadAttempt> {
    vec![
        LoadAttempt::Loaded(app("Msg", "{valid}")),
        LoadAttempt::Loaded(other("meta")),
        LoadAttempt::Loaded(app("Msg", "{valid2}")),
    ]
}

#[test]
fn mixed_fetch_keeps_app_entries_in_order() {
    let out: Vec<GetLinksLoadResult<Message>> =
        get_links_and_load_type(Ok(mixed_attempts())).unwrap();
    assert_eq!(out.len(), 2);
    assert_eq!(out[0].entry.body, b"{valid}".to_vec());
    assert_eq!(out[1].entry.body, b"{valid2}".to_vec());
    assert_eq!(out[0].address.digest, app("Msg", "{valid}").address().digest);
    assert_eq!(out[1].address.digest, app("Msg", "{valid2}").address().digest);
}

#[test]
fn malformed_payload_gives_empty_success() {
    let attempts = vec![LoadAttempt::Loaded(app("Msg", "{malformed"))];
    let out: Vec<GetLinksLoadResult<Message>> = get_links_and_load_type(Ok(attempts)).unwrap();
    assert!(out.is_empty());
}

#[test]
fn failed_bulk_fetch_is_systemic_error() {
    let r: Result<Vec<GetLinksLoadResult<Message>>, SystemicError> =
        get_links_and_load_type(Err(FetchError::Unreachable));
    assert_eq!(r.unwrap_err(), SystemicError::Fetch(FetchError::Unreachable));
}

#[test]
fn empty_fetch_gives_empty_success() {
    let out: Vec<GetLinksLoadResult<Message>> = get_links_and_load_type(Ok(vec![])).unwrap();
    assert!(out.is_empty());
}

#[test]
fn output_never_longer_than_fetch() {
    let attempts = vec![
        LoadAttempt::Failed,
        LoadAttempt::Loaded(app("Msg", "{a}")),
        LoadAttempt::Loaded(other("sys")),
        LoadAttempt::Loaded(app("Msg", "nope")),
        LoadAttempt::Loaded(app("Msg", "{b}")),
    ];
    let n = attempts.len();
    let out: Vec<GetLinksLoadResult<Message>> = get_links_and_load_type(Ok(attempts)).unwrap();
    assert!(out.len() <= n);
    assert_eq!(out.len(), 2);
}

#[test]
fn addresses_pair_with_their_own_entry() {
    let out: Vec<GetLinksLoadResult<Message>> =
        get_links_and_load_type(Ok(mixed_attempts())).unwrap();
    for item in &out {
        let rebuilt = Entry::App {
            entry_type: b"Msg".to_vec(),
            value: item.entry.body.clone(),
        };
        assert_eq!(item.address.digest, rebuilt.address().digest);
    }
}

#[test]
fn non_surviving_attempts_leave_no_trace() {
    let with_junk = vec![
        LoadAttempt::Failed,
        LoadAttempt::Loaded(app("Msg", "{keep}")),
        LoadAttempt::Loaded(other("sys")),
        LoadAttempt::Loaded(app("Msg", "broken")),
        LoadAttempt::Failed,
    ];
    let clean = vec![LoadAttempt::Loaded(app("Msg", "{keep}"))];
    let a: Vec<GetLinksLoadResult<Message>> = get_links_and_load_type(Ok(with_junk)).unwrap();
    let b: Vec<GetLinksLoadResult<Message>> = get_links_and_load_type(Ok(clean)).unwrap();
    assert_eq!(a.len(), b.len());
    for (x, y) in a.iter().zip(b.iter()) {
        assert_eq!(x.entry.body, y.entry.body);
        assert_eq!(x.address.digest, y.address.digest);
    }
}

#[test]
fn identical_fetch_outcomes_load_identically() {
    let a: Vec<GetLinksLoadResult<Message>> =
        get_links_and_load_type(Ok(mixed_attempts())).unwrap();
    let b: Vec<GetLinksLoadResult<Message>> =
        get_links_and_load_type(Ok(mixed_attempts())).unwrap();
    assert_eq!(a.len(), b.len());
    for (x, y) in a.iter().zip(b.iter()) {
        assert_eq!(x.entry.body, y.entry.body);
        assert_eq!(x.address.digest, y.address.digest);
    }
}

#[test]
fn every_fetch_error_variant_is_propagated() {
    for e in [
        FetchError::Unreachable,
        FetchError::InvalidBase,
        FetchError::Internal,
    ] {
        let r: Result<Vec<GetLinksLoadResult<Message>>, SystemicError> =
            get_links_and_load_type(Err(e));
        assert_eq!(r.unwrap_err(), SystemicError::Fetch(e));
    }
}

#[test]
fn dropped_count_reports_what_was_dropped() {
    let (r, dropped) = get_links_and_load_type_with_count::<Message>(Ok(mixed_attempts()));
    assert_eq!(r.unwrap().len(), 2);
    assert_eq!(dropped, 1);
}

#[test]
fn dropped_count_is_zero_on_systemic_failure() {
    let (r, dropped) = get_links_and_load_type_with_count::<Message>(Err(FetchError::Internal));
    assert_eq!(r.unwrap_err(), SystemicError::Fetch(FetchError::Internal));
    assert_eq!(dropped, 0);
}
