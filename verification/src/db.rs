use vstd::prelude::*;

use crate::model::{
    spec_bird_config_path, spec_interface_name, spec_wireguard_config_path, Peer, PeerV,
};

verus! {

// The registry: a durable mapping from autonomous-system number to peer
// record, unique on the key, held in a relational store. The store is
// reached only through the trusted wrappers below; everything they promise
// is stated over `db_peers`, the table contents as a map.

#[verifier::external_type_specification]
#[verifier::external_body]
pub struct ExConnection(rusqlite::Connection);

/// A persisted peer record: the four request fields plus the three derived
/// fields, stored redundantly for operational traceability.
pub struct PeerDbInfo {
    pub asn: u64,
    pub wireguard_endpoint: String,
    pub wireguard_link_local: String,
    pub wireguard_public_key: String,
    pub interface_name: String,
    pub wireguard_config_path: String,
    pub bird_config_path: String,
}

/// The view of a persisted record.
#[verifier::ext_equal]
pub ghost struct PeerDbInfoV {
    pub asn: u64,
    pub wireguard_endpoint: Seq<char>,
    pub wireguard_link_local: Seq<char>,
    pub wireguard_public_key: Seq<char>,
    pub interface_name: Seq<char>,
    pub wireguard_config_path: Seq<char>,
    pub bird_config_path: Seq<char>,
}

impl View for PeerDbInfo {
    type V = PeerDbInfoV;

    open spec fn view(&self) -> PeerDbInfoV {
        PeerDbInfoV {
            asn: self.asn,
            wireguard_endpoint: self.wireguard_endpoint@,
            wireguard_link_local: self.wireguard_link_local@,
            wireguard_public_key: self.wireguard_public_key@,
            interface_name: self.interface_name@,
            wireguard_config_path: self.wireguard_config_path@,
            bird_config_path: self.bird_config_path@,
        }
    }
}

/// Everything a registry operation can report. `LockError` is reserved for
/// the caller that serializes access to the registry; no operation here
/// produces it.
#[derive(Debug)]
pub enum PeerDbError {
    NotFound,
    AlreadyExist,
    RusqliteError(String),
    LockError(String),
}

/// The operator-facing description of each registry failure.
pub open spec fn spec_db_error_message(e: &PeerDbError) -> Seq<char> {
    match e {
        PeerDbError::NotFound => "Peer not found"@,
        PeerDbError::AlreadyExist => "Peer already exists"@,
        PeerDbError::RusqliteError(err) => "Rusqlite error: "@ + err@,
        PeerDbError::LockError(msg) => "Mutex Lock error: "@ + msg@,
    }
}

impl PeerDbError {
    /// The operator-facing description of the failure.
    pub fn message(&self) -> (r: String)
        ensures
            r@ == spec_db_error_message(self),
    {
        match self {
            PeerDbError::NotFound => String::from_str("Peer not found"),
            PeerDbError::AlreadyExist => String::from_str("Peer already exists"),
            PeerDbError::RusqliteError(err) => {
                let mut s = String::from_str("Rusqlite error: ");
                s.append(err.as_str());
                s
            },
            PeerDbError::LockError(msg) => {
                let mut s = String::from_str("Mutex Lock error: ");
                s.append(msg.as_str());
                s
            },
        }
    }
}

/// The rows of the peers table, keyed by autonomous-system number.
pub uninterp spec fn db_peers(conn: rusqlite::Connection) -> Map<u64, PeerDbInfoV>;

/// Whether the connection's database holds the peers table, in this
/// module's schema.
pub uninterp spec fn db_has_peers_table(conn: rusqlite::Connection) -> bool;

/// A handle on the backing store. The connection is reached only through
/// the trusted wrappers in this module.
pub struct PeerDb {
    conn: rusqlite::Connection,
}

impl View for PeerDb {
    type V = Map<u64, PeerDbInfoV>;

    closed spec fn view(&self) -> Map<u64, PeerDbInfoV> {
        db_peers(self.conn)
    }
}

impl PeerDb {
    /// Wraps an open connection; the registry then holds whatever rows the
    /// connection's database already holds. The map model reads the table
    /// through this one handle: it presumes the peers table, where it
    /// exists, has this module's schema, and that no other connection
    /// changes the same database meanwhile.
    pub fn new(conn: rusqlite::Connection) -> (r: PeerDb)
        ensures
            r@ == db_peers(conn),
            spec_has_peers_table(&r) == db_has_peers_table(conn),
    {
        PeerDb { conn }
    }
}

/// Whether the registry's backing table exists behind this handle.
pub closed spec fn spec_has_peers_table(db: &PeerDb) -> bool {
    db_has_peers_table(db.conn)
}

/// Relies on rusqlite::Connection::execute of CREATE TABLE IF NOT EXISTS:
/// when it succeeds the table exists — created now or already there — and
/// either way it neither adds nor removes rows.
#[verifier::external_body]
fn create_peers_table(db: &mut PeerDb) -> (r: Result<(), PeerDbError>)
    ensures
        db_peers(final(db).conn) == db_peers(old(db).conn),
        r is Ok ==> db_has_peers_table(final(db).conn),
        (r matches Err(e) ==> e matches PeerDbError::RusqliteError(_)),
{
    let res = db.conn.execute(
        "CREATE TABLE IF NOT EXISTS peers (
            asn                 INTEGER PRIMARY KEY,
            wireguard_endpoint  TEXT NOT NULL,
            wireguard_link_local TEXT NOT NULL,
            wireguard_public_key TEXT NOT NULL,
            interface_name TEXT NOT NULL,
            wireguard_config_path TEXT NOT NULL,
            bird_config_path TEXT NOT NULL
        )",
        (),
    );
    match res {
        Ok(_) => Ok(()),
        Err(e) => Err(PeerDbError::RusqliteError(format!("{}", e))),
    }
}

/// Relies on rusqlite::Connection::execute of one INSERT into a table whose
/// key column is the primary key: on success exactly the given row is added
/// and the count of changed rows is 1; a UNIQUE-constraint violation is
/// reported exactly when the key is already present; a failed statement
/// changes nothing.
#[verifier::external_body]
fn insert_peer_row(db: &mut PeerDb, rec: &PeerDbInfo) -> (r: Result<usize, PeerDbError>)
    ensures
        r is Ok ==> !db_peers(old(db).conn).contains_key(rec.asn) && db_peers(final(db).conn)
            == db_peers(old(db).conn).insert(rec.asn, rec@),
        (r matches Ok(n) ==> n == 1),
        r is Err ==> db_peers(final(db).conn) == db_peers(old(db).conn),
        (r matches Err(e) ==> e matches PeerDbError::AlreadyExist ==> db_peers(
            old(db).conn,
        ).contains_key(rec.asn)),
        (r matches Err(e) ==> e matches PeerDbError::AlreadyExist || e
            matches PeerDbError::RusqliteError(_)),
        db_has_peers_table(final(db).conn) == db_has_peers_table(old(db).conn),
{
    match db.conn.execute(
        "INSERT INTO peers (asn, wireguard_endpoint, wireguard_link_local, wireguard_public_key, interface_name, wireguard_config_path, bird_config_path) VALUES (?1, ?2, ?3, ?4, ?5, ?6, ?7)",
        (rec.asn as i64, rec.wireguard_endpoint.as_str(), rec.wireguard_link_local.as_str(),
            rec.wireguard_public_key.as_str(), rec.interface_name.as_str(),
            rec.wireguard_config_path.as_str(), rec.bird_config_path.as_str()),
    ) {
        Ok(n) => Ok(n),
        Err(rusqlite::Error::SqliteFailure(c, Some(m)))
            if c.code == rusqlite::ErrorCode::ConstraintViolation
                && m.contains("UNIQUE constraint failed") => Err(PeerDbError::AlreadyExist),
        Err(e) => Err(PeerDbError::RusqliteError(format!("{}", e))),
    }
}

/// Relies on rusqlite::Connection::query_row of a SELECT by key: it hands
/// back the stored row when the key is present, reports
/// QueryReturnedNoRows exactly when it is not, and changes nothing.
#[verifier::external_body]
fn select_peer_row(db: &PeerDb, asn: u64) -> (r: Result<PeerDbInfo, PeerDbError>)
    ensures
        (r matches Ok(p) ==> db_peers(db.conn).contains_key(asn) && p@ == db_peers(db.conn)[asn]),
        (r matches Err(e) ==> (e matches PeerDbError::NotFound ==> !db_peers(
            db.conn,
        ).contains_key(asn))),
        (r matches Err(e) ==> e matches PeerDbError::NotFound || e
            matches PeerDbError::RusqliteError(_)),
{
    let res = db.conn.query_row(
        "SELECT asn, wireguard_endpoint, wireguard_link_local, wireguard_public_key, interface_name, wireguard_config_path, bird_config_path FROM peers WHERE asn = ?1",
        (asn as i64,),
        |row| Ok(PeerDbInfo {
            asn: row.get::<_, i64>(0)? as u64, wireguard_endpoint: row.get(1)?, wireguard_link_local: row.get(2)?,
            wireguard_public_key: row.get(3)?, interface_name: row.get(4)?,
            wireguard_config_path: row.get(5)?, bird_config_path: row.get(6)?,
        }),
    );
    match res {
        Ok(p) => Ok(p),
        Err(rusqlite::Error::QueryReturnedNoRows) => Err(PeerDbError::NotFound),
        Err(e) => Err(PeerDbError::RusqliteError(format!("{}", e))),
    }
}

/// Relies on rusqlite::Connection::execute of a DELETE by key: afterwards
/// the key is absent, the count of changed rows is 1 or 0 as the key was
/// present or not (the key is unique), and a failed statement changes
/// nothing.
#[verifier::external_body]
fn delete_peer_row(db: &mut PeerDb, asn: u64) -> (r: Result<usize, PeerDbError>)
    ensures
        (r matches Ok(n) ==> db_peers(final(db).conn) == db_peers(old(db).conn).remove(asn) && n
            == (if db_peers(old(db).conn).contains_key(asn) {
            1usize
        } else {
            0usize
        })),
        r is Err ==> db_peers(final(db).conn) == db_peers(old(db).conn),
        (r matches Err(e) ==> e matches PeerDbError::RusqliteError(_)),
        db_has_peers_table(final(db).conn) == db_has_peers_table(old(db).conn),
{
    let res = db.conn.execute("DELETE FROM peers WHERE asn = ?1", (asn as i64,));
    match res {
        Ok(n) => Ok(n),
        Err(e) => Err(PeerDbError::RusqliteError(format!("{}", e))),
    }
}

/// Idempotently ensures the backing table exists: on success the table is
/// there, whether this call created it or an earlier one did, and the rows
/// are untouched either way.
pub fn init_db(db: &mut PeerDb) -> (r: Result<(), PeerDbError>)
    ensures
        final(db)@ == old(db)@,
        r is Ok ==> spec_has_peers_table(final(db)),
        (r matches Err(e) ==> e matches PeerDbError::RusqliteError(_)),
{
    create_peers_table(db)
}

/// The record Add persists for a request: the request fields together with
/// the three derived fields, which are a pure function of the number.
pub open spec fn spec_record_for(p: PeerV) -> PeerDbInfoV {
    PeerDbInfoV {
        asn: p.asn,
        wireguard_endpoint: p.wireguard_endpoint,
        wireguard_link_local: p.wireguard_link_local,
        wireguard_public_key: p.wireguard_public_key,
        interface_name: spec_interface_name(p.asn),
        wireguard_config_path: spec_wireguard_config_path(p.asn),
        bird_config_path: spec_bird_config_path(p.asn),
    }
}

/// Inserts the peer under its number, with the derived fields filled in.
/// Succeeds only when the number was absent, and then adds exactly that
/// record; reports AlreadyExist only when the number was present; on any
/// failure the registry is unchanged.
pub fn add_peer(db: &mut PeerDb, peer: &Peer) -> (r: Result<usize, PeerDbError>)
    ensures
        r is Ok ==> !old(db)@.contains_key(peer.asn) && final(db)@ == old(db)@.insert(
            peer.asn,
            spec_record_for(peer@),
        ),
        (r matches Ok(n) ==> n == 1),
        r is Err ==> final(db)@ == old(db)@,
        (r matches Err(e) ==> (e matches PeerDbError::AlreadyExist ==> old(db)@.contains_key(
            peer.asn,
        ))),
        (r matches Err(e) ==> e matches PeerDbError::AlreadyExist || e
            matches PeerDbError::RusqliteError(_)),
        old(db)@.contains_key(peer.asn) ==> r is Err,
        spec_has_peers_table(final(db)) == spec_has_peers_table(old(db)),
{
    let rec = PeerDbInfo {
        asn: peer.asn,
        wireguard_endpoint: peer.wireguard_endpoint.clone(),
        wireguard_link_local: peer.wireguard_link_local.clone(),
        wireguard_public_key: peer.wireguard_public_key.clone(),
        interface_name: peer.gen_interface_name(),
        wireguard_config_path: peer.gen_wireguard_config_path(),
        bird_config_path: peer.gen_bird_config_path(),
    };
    proof {
        assert(rec@ =~= spec_record_for(peer@));
    }
    insert_peer_row(db, &rec)
}

/// Looks the peer up by its number; NotFound exactly when it is absent, and
/// on success the full stored record, derived paths included.
pub fn get_peer_by_asn(db: &PeerDb, asn: u64) -> (r: Result<PeerDbInfo, PeerDbError>)
    ensures
        (r matches Ok(p) ==> db@.contains_key(asn) && p@ == db@[asn]),
        (r matches Err(e) ==> (e matches PeerDbError::NotFound ==> !db@.contains_key(asn))),
        (r matches Err(e) ==> e matches PeerDbError::NotFound || e
            matches PeerDbError::RusqliteError(_)),
        !db@.contains_key(asn) ==> r is Err,
{
    select_peer_row(db, asn)
}

/// Removes the peer's row; NotFound exactly when no row was affected, and
/// on success the count of rows removed, always 1.
pub fn delete_peer_by_asn(db: &mut PeerDb, asn: u64) -> (r: Result<usize, PeerDbError>)
    ensures
        (r matches Ok(n) ==> old(db)@.contains_key(asn) && n == 1 && final(db)@ == old(
            db,
        )@.remove(asn)),
        r is Err ==> final(db)@ == old(db)@,
        (r matches Err(e) ==> (e matches PeerDbError::NotFound ==> !old(db)@.contains_key(asn))),
        (r matches Err(e) ==> e matches PeerDbError::NotFound || e
            matches PeerDbError::RusqliteError(_)),
        old(db)@.contains_key(asn) ==> (r is Ok || r matches Err(PeerDbError::RusqliteError(_))),
        spec_has_peers_table(final(db)) == spec_has_peers_table(old(db)),
{
    let ghost before = db@;
    match delete_peer_row(db, asn) {
        Ok(n) => {
            if n == 0 {
                proof {
                    assert(before.remove(asn) =~= before);
                }
                Err(PeerDbError::NotFound)
            } else {
                Ok(n)
            }
        },
        Err(e) => Err(e),
    }
}

/// Law: the registry is unique on its key. Adding a record makes its
/// number present with exactly that record and touches no other number,
/// so a subsequent add of the same number cannot succeed (`add_peer` owes
/// success only to an absent number); and removing an absent number
/// leaves the table as it was (`delete_peer_by_asn` then reports
/// NotFound).
pub proof fn lemma_registry_key_unique(
    m: Map<u64, PeerDbInfoV>,
    asn: u64,
    other: u64,
    rec: PeerDbInfoV,
)
    requires
        other != asn,
    ensures
        m.insert(asn, rec).contains_key(asn),
        m.insert(asn, rec)[asn] == rec,
        m.insert(asn, rec).contains_key(other) == m.contains_key(other),
        !m.contains_key(asn) ==> m.remove(asn) == m,
{
    if !m.contains_key(asn) {
        assert(m.remove(asn) =~= m);
    }
}

} // verus!
