use autopeer::db::{
    add_peer, delete_peer_by_asn, get_peer_by_asn, init_db, PeerDb, PeerDbError,
};
use autopeer::model::Peer;

fn fresh_db() -> PeerDb {
    let conn = rusqlite::Connection::open_in_memory().expect("open in-memory database");
    let mut db = PeerDb::new(conn);
    init_db(&mut db).expect("create schema");
    db
}

fn sample_peer(asn: u64) -> Peer {
    Peer {
        asn,
        wireguard_endpoint: "203.0.113.5:51820".to_string(),
        wireguard_link_local: "fe80::1".to_string(),
        wireguard_public_key: "AAAAAAAAAAAAAAAAAAAAAAAAAAAAAAAAAAAAAAAAAAA=".to_string(),
    }
}

#[test]
fn test_init_db_idempotent() {
    let mut db = fresh_db();
    init_db(&mut db).expect("second initialization");
    init_db(&mut db).expect("third initialization");
}

#[test]
fn test_add_then_add_same_asn_conflicts() {
    let mut db = fresh_db();
    let peer = sample_peer(4242420001);
    assert_eq!(add_peer(&mut db, &peer).unwrap(), 1);
    let second = add_peer(&mut db, &peer);
    assert!(matches!(second, Err(PeerDbError::AlreadyExist)));
}

#[test]
fn test_get_absent_yields_not_found() {
    let db = fresh_db();
    let got = get_peer_by_asn(&db, 4242420001);
    assert!(matches!(got, Err(PeerDbError::NotFound)));
}

#[test]
fn test_delete_absent_yields_not_found_and_leaves_table() {
    let mut db = fresh_db();
    let peer = sample_peer(4242420007);
    add_peer(&mut db, &peer).unwrap();
    let gone = delete_peer_by_asn(&mut db, 4242420008);
    assert!(matches!(gone, Err(PeerDbError::NotFound)));
    // The other row is untouched.
    assert!(get_peer_by_asn(&db, 4242420007).is_ok());
}

#[test]
fn test_get_returns_full_record_with_derived_fields() {
    let mut db = fresh_db();
    let peer = sample_peer(4242420253);
    add_peer(&mut db, &peer).unwrap();
    let rec = get_peer_by_asn(&db, 4242420253).unwrap();
    assert_eq!(rec.asn, 4242420253);
    assert_eq!(rec.wireguard_endpoint, "203.0.113.5:51820");
    assert_eq!(rec.wireguard_link_local, "fe80::1");
    assert_eq!(
        rec.wireguard_public_key,
        "AAAAAAAAAAAAAAAAAAAAAAAAAAAAAAAAAAAAAAAAAAA="
    );
    assert_eq!(rec.interface_name, "dn42_253");
    assert_eq!(rec.wireguard_config_path, "/etc/wireguard/dn42_253.conf");
    assert_eq!(rec.bird_config_path, "/etc/bird/peers/dn42_253.conf");
}

#[test]
fn test_delete_removes_exactly_one_row() {
    let mut db = fresh_db();
    let peer = sample_peer(4242420009);
    add_peer(&mut db, &peer).unwrap();
    assert_eq!(delete_peer_by_asn(&mut db, 4242420009).unwrap(), 1);
    assert!(matches!(
        delete_peer_by_asn(&mut db, 4242420009),
        Err(PeerDbError::NotFound)
    ));
    assert!(matches!(
        get_peer_by_asn(&db, 4242420009),
        Err(PeerDbError::NotFound)
    ));
}

#[test]
fn test_storage_fault_is_classified() {
    // A connection without the schema: the first insert hits the store's
    // own error path, not the conflict or not-found classifications.
    let conn = rusqlite::Connection::open_in_memory().expect("open in-memory database");
    let mut db = PeerDb::new(conn);
    let r = add_peer(&mut db, &sample_peer(4242420001));
    assert!(matches!(r, Err(PeerDbError::RusqliteError(_))));
}

#[test]
fn test_error_messages() {
    assert_eq!(PeerDbError::NotFound.message(), "Peer not found");
    assert_eq!(PeerDbError::AlreadyExist.message(), "Peer already exists");
    assert_eq!(
        PeerDbError::RusqliteError("boom".to_string()).message(),
        "Rusqlite error: boom"
    );
    assert_eq!(
        PeerDbError::LockError("poisoned".to_string()).message(),
        "Mutex Lock error: poisoned"
    );
}
