use rshare::config::Config;
use rshare::config::DEFAULT_SOCKET_PORT;
use rshare::contacts::ContactList;
use rshare::errors::Error;

#[test]
fn add_and_get_contact() {
    let mut list = ContactList::new();
    list.add("alice".to_string(), "aabbcc".to_string()).expect("add");
    let c = list.get("alice").expect("present");
    assert_eq!(c.name, "alice");
    assert_eq!(c.public_key, "aabbcc");
    assert!(list.get("bob").is_none());
}

#[test]
fn add_duplicate_name_fails_and_changes_nothing() {
    let mut list = ContactList::new();
    list.add("alice".to_string(), "aabbcc".to_string()).expect("add");
    let r = list.add("alice".to_string(), "ddeeff".to_string());
    match r {
        Err(Error::InvalidInput(m)) => assert_eq!(m, "Contact 'alice' already exists"),
        other => panic!("expected InvalidInput, got {:?}", other),
    }
    assert_eq!(list.contacts.len(), 1);
    assert_eq!(list.get("alice").unwrap().public_key, "aabbcc");
}

#[test]
fn remove_missing_name_fails_and_changes_nothing() {
    let mut list = ContactList::new();
    list.add("alice".to_string(), "aabbcc".to_string()).expect("add");
    let r = list.remove("bob");
    match r {
        Err(Error::InvalidInput(m)) => assert_eq!(m, "Contact 'bob' not found"),
        other => panic!("expected InvalidInput, got {:?}", other),
    }
    assert_eq!(list.contacts.len(), 1);
}

#[test]
fn remove_then_get_is_none() {
    let mut list = ContactList::new();
    list.add("alice".to_string(), "aabbcc".to_string()).expect("add");
    list.add("bob".to_string(), "112233".to_string()).expect("add");
    list.remove("alice").expect("remove");
    assert!(list.get("alice").is_none());
    assert_eq!(list.get("bob").unwrap().public_key, "112233");
    assert_eq!(list.contacts.len(), 1);
}

#[test]
fn list_reports_all_contacts_in_order() {
    let mut list = ContactList::new();
    list.add("alice".to_string(), "aa".to_string()).expect("add");
    list.add("bob".to_string(), "bb".to_string()).expect("add");
    let all = list.list();
    assert_eq!(all.len(), 2);
    assert_eq!(all[0].name, "alice");
    assert_eq!(all[1].name, "bob");
    assert!(!all[0].added_at.is_empty());
}

#[test]
fn verify_sender_accepts_exact_fingerprint() {
    let mut list = ContactList::new();
    list.add("alice".to_string(), "aabbccdd".to_string()).expect("add");
    assert!(list.verify_sender("alice", "aabbccdd").is_ok());
}

#[test]
fn verify_sender_rejects_missing_contact() {
    let list = ContactList::new();
    let r = list.verify_sender("alice", "aabbccdd");
    assert!(matches!(r, Err(Error::InvalidInput(_))));
}

#[test]
fn verify_sender_rejects_case_difference() {
    let mut list = ContactList::new();
    list.add("alice".to_string(), "aabbccdd".to_string()).expect("add");
    let r = list.verify_sender("alice", "AABBCCDD");
    assert!(matches!(r, Err(Error::InvalidInput(_))));
}

#[test]
fn verify_sender_rejects_padding_difference() {
    let mut list = ContactList::new();
    list.add("alice".to_string(), "0abc".to_string()).expect("add");
    let r = list.verify_sender("alice", "abc");
    assert!(matches!(r, Err(Error::InvalidInput(_))));
    let r = list.verify_sender("alice", "00abc");
    assert!(matches!(r, Err(Error::InvalidInput(_))));
}

#[test]
fn error_messages_carry_category_labels() {
    assert_eq!(
        Error::FileError("missing".to_string()).message(),
        "File Error: missing"
    );
    assert_eq!(
        Error::NetworkError("down".to_string()).message(),
        "Network Error: down"
    );
    assert_eq!(
        Error::CryptoError("bad key".to_string()).message(),
        "Cryptography Error: bad key"
    );
    assert_eq!(
        Error::InvalidInput("bad name".to_string()).message(),
        "Invalid Input: bad name"
    );
    assert_eq!(
        Error::ConfigError("bad toml".to_string()).message(),
        "Configuration Error: bad toml"
    );
    assert_eq!(
        Error::SessionError("gone".to_string()).message(),
        "Session Error: gone"
    );
    assert_eq!(
        Error::UnknownIssue("odd".to_string()).message(),
        "Unknown Issue: odd"
    );
}

#[test]
fn create_config_uses_given_paths_and_default_server() {
    let config = Config::create_config("/tmp/keys".to_string(), "/tmp/downloads".to_string());
    assert_eq!(config.path.keys_path, "/tmp/keys");
    assert_eq!(config.path.download_path, "/tmp/downloads");
    assert_eq!(config.server.http_url, "http://localhost:8080");
    assert_eq!(config.server.socket_host, "localhost");
    assert_eq!(config.server.socket_port, DEFAULT_SOCKET_PORT);
    assert_eq!(config.server.socket_port, 10000);
}
