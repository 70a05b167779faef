use vstd::prelude::*;

use crate::config::StaticConfig;
use crate::db::{
    add_peer, delete_peer_by_asn, get_peer_by_asn, spec_record_for, PeerDb, PeerDbError,
};
use crate::gen_config::{
    gen_bird_config, gen_wireguard_config, spec_bird_config_for, spec_wireguard_config_for,
};
use crate::model::{
    spec_bird_config_path, spec_interface_name, spec_listen_port, spec_valid_asn,
    spec_valid_endpoint, spec_valid_link_local, spec_valid_public_key,
    spec_wireguard_config_path, Peer, PeerV,
};
use crate::system::{
    apply_config, remove_config, save_config, spec_apply_actions, spec_remove_actions,
    spec_save_actions, views_of, HostAction,
};
use crate::text::{spec_dec, str_to_chars, u64_to_string};

verus! {

// The provisioning workflow: the three externally visible operations,
// composed from the validator, the deriver, the registry and the
// host-mutation plans. The transport layer hands in plain values and gets
// back a status code, a body, and — where host work is owed — the ordered
// actions to run under the process-wide host lock.

/// A response to hand back to the transport layer.
pub struct ApiResponse {
    pub status: u16,
    pub body: String,
}

/// The four request checks, named by what failed.
#[derive(PartialEq, Eq, Structural, Clone, Copy, Debug)]
pub enum ValidationError {
    Endpoint,
    Asn,
    LinkLocal,
    PublicKey,
}

/// The first check a request fails, in the fixed order the workflow
/// evaluates them: endpoint, autonomous-system number, link-local address,
/// public key.
pub open spec fn spec_first_validation_error(p: PeerV) -> Option<ValidationError> {
    if !spec_valid_endpoint(p.wireguard_endpoint) {
        Some(ValidationError::Endpoint)
    } else if !spec_valid_asn(p.asn) {
        Some(ValidationError::Asn)
    } else if !spec_valid_link_local(p.wireguard_link_local) {
        Some(ValidationError::LinkLocal)
    } else if !spec_valid_public_key(p.wireguard_public_key) {
        Some(ValidationError::PublicKey)
    } else {
        None
    }
}

/// Runs the four checks in order, stopping at the first failure.
pub fn validate_peer(peer: &Peer) -> (r: Option<ValidationError>)
    ensures
        r == spec_first_validation_error(peer@),
{
    if !peer.is_valid_wireguard_endpoint() {
        Some(ValidationError::Endpoint)
    } else if !peer.is_valid_asn() {
        Some(ValidationError::Asn)
    } else if !peer.is_valid_link_local() {
        Some(ValidationError::LinkLocal)
    } else if !peer.is_valid_wireguard_public_key() {
        Some(ValidationError::PublicKey)
    } else {
        None
    }
}

/// The client-facing message for each failed check.
pub open spec fn spec_validation_message(v: ValidationError) -> Seq<char> {
    match v {
        ValidationError::Endpoint => "Invalid Wireguard endpoint"@,
        ValidationError::Asn => "Invalid ASN"@,
        ValidationError::LinkLocal => "Invalid Link-Local address"@,
        ValidationError::PublicKey => "Invalid Wireguard public key"@,
    }
}

fn validation_response(v: ValidationError) -> (r: ApiResponse)
    ensures
        r.status == 400,
        r.body@ == spec_validation_message(v),
{
    let body = match v {
        ValidationError::Endpoint => String::from_str("Invalid Wireguard endpoint"),
        ValidationError::Asn => String::from_str("Invalid ASN"),
        ValidationError::LinkLocal => String::from_str("Invalid Link-Local address"),
        ValidationError::PublicKey => String::from_str("Invalid Wireguard public key"),
    };
    ApiResponse { status: 400, body }
}

/// Relies on std's String::push: it appends exactly the given character.
#[verifier::external_body]
fn push_char(s: &mut String, c: char)
    ensures
        final(s)@ == old(s)@ + seq![c],
{
    s.push(c);
}

/// One lowercase hexadecimal digit character.
pub open spec fn spec_hex_char(d: nat) -> char {
    if d == 0 {
        '0'
    } else if d == 1 {
        '1'
    } else if d == 2 {
        '2'
    } else if d == 3 {
        '3'
    } else if d == 4 {
        '4'
    } else if d == 5 {
        '5'
    } else if d == 6 {
        '6'
    } else if d == 7 {
        '7'
    } else if d == 8 {
        '8'
    } else if d == 9 {
        '9'
    } else if d == 10 {
        'a'
    } else if d == 11 {
        'b'
    } else if d == 12 {
        'c'
    } else if d == 13 {
        'd'
    } else if d == 14 {
        'e'
    } else {
        'f'
    }
}

fn hex_char(d: u32) -> (r: char)
    requires
        d < 16,
    ensures
        r == spec_hex_char(d as nat),
{
    if d == 0 {
        '0'
    } else if d == 1 {
        '1'
    } else if d == 2 {
        '2'
    } else if d == 3 {
        '3'
    } else if d == 4 {
        '4'
    } else if d == 5 {
        '5'
    } else if d == 6 {
        '6'
    } else if d == 7 {
        '7'
    } else if d == 8 {
        '8'
    } else if d == 9 {
        '9'
    } else if d == 10 {
        'a'
    } else if d == 11 {
        'b'
    } else if d == 12 {
        'c'
    } else if d == 13 {
        'd'
    } else if d == 14 {
        'e'
    } else {
        'f'
    }
}

/// How one character appears inside a JSON string literal: quote and
/// backslash escaped, the named control characters short-escaped, every
/// other control character written as a hexadecimal escape.
pub open spec fn spec_json_escape_char(c: char) -> Seq<char> {
    if c == '"' {
        seq!['\\', '"']
    } else if c == '\\' {
        seq!['\\', '\\']
    } else if c == '\u{8}' {
        seq!['\\', 'b']
    } else if c == '\t' {
        seq!['\\', 't']
    } else if c == '\n' {
        seq!['\\', 'n']
    } else if c == '\u{c}' {
        seq!['\\', 'f']
    } else if c == '\r' {
        seq!['\\', 'r']
    } else if (c as u32) < 32 {
        seq!['\\', 'u', '0', '0', spec_hex_char((c as u32 / 16) as nat), spec_hex_char(
            (c as u32 % 16) as nat,
        )]
    } else {
        seq![c]
    }
}

/// A whole text as it appears inside a JSON string literal.
pub open spec fn spec_json_escape(s: Seq<char>) -> Seq<char>
    decreases s.len(),
{
    if s.len() == 0 {
        Seq::empty()
    } else {
        spec_json_escape(s.drop_last()) + spec_json_escape_char(s.last())
    }
}

fn append_json_escaped_char(out: &mut String, c: char)
    ensures
        final(out)@ == old(out)@ + spec_json_escape_char(c),
{
    proof {
        reveal_strlit("\\\"");
        reveal_strlit("\\\\");
        reveal_strlit("\\b");
        reveal_strlit("\\t");
        reveal_strlit("\\n");
        reveal_strlit("\\f");
        reveal_strlit("\\r");
    }
    if c == '"' {
        out.append("\\\"");
    } else if c == '\\' {
        out.append("\\\\");
    } else if c == '\u{8}' {
        out.append("\\b");
    } else if c == '\t' {
        out.append("\\t");
    } else if c == '\n' {
        out.append("\\n");
    } else if c == '\u{c}' {
        out.append("\\f");
    } else if c == '\r' {
        out.append("\\r");
    } else if (c as u32) < 32 {
        push_char(out, '\\');
        push_char(out, 'u');
        push_char(out, '0');
        push_char(out, '0');
        push_char(out, hex_char(c as u32 / 16));
        push_char(out, hex_char(c as u32 % 16));
        proof {
            assert(out@ =~= old(out)@ + spec_json_escape_char(c));
        }
    } else {
        push_char(out, c);
    }
    proof {
        assert(out@ =~= old(out)@ + spec_json_escape_char(c));
    }
}

fn append_json_escaped(out: &mut String, s: &str)
    ensures
        final(out)@ == old(out)@ + spec_json_escape(s@),
{
    let chars = str_to_chars(s);
    let n = chars.len();
    let mut i: usize = 0;
    while i < n
        invariant
            i <= n,
            n == s@.len(),
            chars@ == s@,
            out@ == old(out)@ + spec_json_escape(s@.subrange(0, i as int)),
        decreases n - i,
    {
        append_json_escaped_char(out, chars[i]);
        proof {
            assert(s@.subrange(0, i as int + 1).drop_last() =~= s@.subrange(0, i as int));
            assert(s@.subrange(0, i as int + 1).last() == s@[i as int]);
        }
        i = i + 1;
    }
    proof {
        assert(s@.subrange(0, n as int) =~= s@);
    }
}

/// The confirmation body of a successful Add.
pub open spec fn spec_peer_added_body(asn: u64) -> Seq<char> {
    "Peer added: "@ + spec_dec(asn as nat)
}

/// The confirmation body of a successful Delete.
pub open spec fn spec_peer_deleted_body(asn: u64) -> Seq<char> {
    "Peer deleted: "@ + spec_dec(asn as nat)
}

/// The conflict body when the number is already registered.
pub open spec fn spec_peer_exists_body(asn: u64) -> Seq<char> {
    "Peer already exists: "@ + spec_dec(asn as nat)
}

/// The body when the number is not registered.
pub open spec fn spec_peer_not_found_body(asn: u64) -> Seq<char> {
    "Peer not found: "@ + spec_dec(asn as nat)
}

/// The body when deriving the listen port failed.
pub open spec fn spec_derive_failure_body() -> Seq<char> {
    "Failed to generate WireGuard config: Invalid port number"@
}

fn body_with_asn(prefix: &str, asn: u64) -> (r: String)
    ensures
        r@ == prefix@ + spec_dec(asn as nat),
{
    let mut s = String::from_str(prefix);
    let digits = u64_to_string(asn);
    s.append(digits.as_str());
    s
}

fn prefixed_body(prefix: &str, detail: &str) -> (r: String)
    ensures
        r@ == prefix@ + detail@,
{
    let mut s = String::from_str(prefix);
    s.append(detail);
    s
}

/// The Get response document: the four request fields of the stored
/// record, as one JSON object in stored order.
pub open spec fn spec_peer_json(
    asn: u64,
    endpoint: Seq<char>,
    link_local: Seq<char>,
    public_key: Seq<char>,
) -> Seq<char> {
    "{\"asn\":"@ + spec_dec(asn as nat) + ",\"wireguard_endpoint\":\""@ + spec_json_escape(
        endpoint,
    ) + "\",\"wireguard_link_local\":\""@ + spec_json_escape(link_local)
        + "\",\"wireguard_public_key\":\""@ + spec_json_escape(public_key) + "\"}"@
}

fn peer_json(asn: u64, endpoint: &str, link_local: &str, public_key: &str) -> (r: String)
    ensures
        r@ == spec_peer_json(asn, endpoint@, link_local@, public_key@),
{
    let mut s = String::from_str("{\"asn\":");
    let digits = u64_to_string(asn);
    s.append(digits.as_str());
    s.append(",\"wireguard_endpoint\":\"");
    append_json_escaped(&mut s, endpoint);
    s.append("\",\"wireguard_link_local\":\"");
    append_json_escaped(&mut s, link_local);
    s.append("\",\"wireguard_public_key\":\"");
    append_json_escaped(&mut s, public_key);
    s.append("\"}");
    proof {
        assert(s@ =~= spec_peer_json(asn, endpoint@, link_local@, public_key@));
    }
    s
}

/// How a storage fault reads in a response body: the store's own message
/// behind the database-error prefix, or — for the error kinds the registry
/// never produces on that path — behind the unknown-error prefix.
pub open spec fn spec_storage_error_body(b: Seq<char>) -> bool {
    (exists|m: Seq<char>| b == "Database error: "@ + m) || (exists|m: Seq<char>|
        b == "Unknown error: "@ + m)
}

/// What Add decides before any host work: either a finished response, or
/// the host work now owed — the file writes, then the activation commands
/// — with the response to use once all of it succeeds.
pub enum AddStep {
    Done(ApiResponse),
    Provision { save: Vec<HostAction>, apply: Vec<HostAction>, ok_response: ApiResponse },
}

/// The Add operation up to its host work: validate in order, derive the
/// artifacts, insert the registry row. A validation failure answers 400
/// with the failed check's message and touches nothing; an out-of-range
/// listen port answers 500 and touches nothing; a conflict on the number
/// answers 409 and changes nothing; a storage fault answers 500 and
/// changes nothing. Only when the row was inserted is host work handed
/// back, and then it is exactly the write-then-activate plan for this
/// peer. If that host work later fails, the row stays: the workflow
/// reports the inconsistency and does not compensate.
pub fn handle_add(db: &mut PeerDb, cfg: &StaticConfig, peer: &Peer) -> (r: AddStep)
    ensures
        (spec_first_validation_error(peer@) matches Some(v) ==> (final(db)@ == old(db)@ && (
        r matches AddStep::Done(resp) && resp.status == 400 && resp.body@
            == spec_validation_message(v)))),
        (spec_first_validation_error(peer@) is None && !(1024 <= spec_listen_port(
            peer.asn,
            cfg.port_prefix_number,
        ) <= 65535) ==> (final(db)@ == old(db)@ && (r matches AddStep::Done(resp) && resp.status
            == 500 && resp.body@ == spec_derive_failure_body()))),
        (spec_first_validation_error(peer@) is None && 1024 <= spec_listen_port(
            peer.asn,
            cfg.port_prefix_number,
        ) <= 65535 ==> (match r {
            AddStep::Provision { save, apply, ok_response } => !old(db)@.contains_key(peer.asn)
                && final(db)@ == old(db)@.insert(peer.asn, spec_record_for(peer@)) && views_of(
                save@,
            ) == spec_save_actions(
                spec_wireguard_config_path(peer.asn),
                spec_wireguard_config_for(peer@, cfg@),
                spec_bird_config_path(peer.asn),
                spec_bird_config_for(peer@, cfg@),
            ) && views_of(apply@) == spec_apply_actions(cfg@, spec_interface_name(peer.asn))
                && ok_response.status == 200 && ok_response.body@ == spec_peer_added_body(
                peer.asn,
            ),
            AddStep::Done(resp) => final(db)@ == old(db)@ && (resp.status == 409 || resp.status
                == 500) && (resp.status == 409 ==> old(db)@.contains_key(peer.asn) && resp.body@
                == spec_peer_exists_body(peer.asn)) && (resp.status == 500
                ==> spec_storage_error_body(resp.body@)),
        })),
        old(db)@.contains_key(peer.asn) ==> r is Done,
{
    if let Some(v) = validate_peer(peer) {
        return AddStep::Done(validation_response(v));
    }
    let wg_text = match gen_wireguard_config(peer, cfg) {
        Ok(t) => t,
        Err(_) => {
            return AddStep::Done(
                ApiResponse {
                    status: 500,
                    body: String::from_str(
                        "Failed to generate WireGuard config: Invalid port number",
                    ),
                },
            );
        },
    };
    let bird_text = gen_bird_config(peer, cfg);
    match add_peer(db, peer) {
        Ok(_) => {
            let wg_path = peer.gen_wireguard_config_path();
            let bird_path = peer.gen_bird_config_path();
            let iface = peer.gen_interface_name();
            let save = save_config(
                wg_path.as_str(),
                wg_text.as_str(),
                bird_path.as_str(),
                bird_text.as_str(),
            );
            let apply = apply_config(cfg, iface.as_str());
            let ok_response = ApiResponse {
                status: 200,
                body: body_with_asn("Peer added: ", peer.asn),
            };
            AddStep::Provision { save, apply, ok_response }
        },
        Err(PeerDbError::AlreadyExist) => AddStep::Done(
            ApiResponse { status: 409, body: body_with_asn("Peer already exists: ", peer.asn) },
        ),
        Err(PeerDbError::RusqliteError(msg)) => AddStep::Done(
            ApiResponse { status: 500, body: prefixed_body("Database error: ", msg.as_str()) },
        ),
        Err(e) => {
            let m = e.message();
            AddStep::Done(
                ApiResponse { status: 500, body: prefixed_body("Unknown error: ", m.as_str()) },
            )
        },
    }
}

/// The Get operation: look the number up and answer the stored request
/// fields as JSON; 400 with the not-found body exactly when the number is
/// absent and the store answered; 500 on a storage fault.
pub fn handle_get(db: &PeerDb, asn: u64) -> (r: ApiResponse)
    ensures
        r.status == 200 || r.status == 400 || r.status == 500,
        r.status == 200 ==> db@.contains_key(asn) && r.body@ == spec_peer_json(
            db@[asn].asn,
            db@[asn].wireguard_endpoint,
            db@[asn].wireguard_link_local,
            db@[asn].wireguard_public_key,
        ),
        r.status == 400 ==> !db@.contains_key(asn) && r.body@ == spec_peer_not_found_body(asn),
        r.status == 500 ==> spec_storage_error_body(r.body@),
        !db@.contains_key(asn) ==> r.status != 200,
{
    match get_peer_by_asn(db, asn) {
        Ok(p) => ApiResponse {
            status: 200,
            body: peer_json(
                p.asn,
                p.wireguard_endpoint.as_str(),
                p.wireguard_link_local.as_str(),
                p.wireguard_public_key.as_str(),
            ),
        },
        Err(PeerDbError::NotFound) => ApiResponse {
            status: 400,
            body: body_with_asn("Peer not found: ", asn),
        },
        Err(PeerDbError::RusqliteError(msg)) => ApiResponse {
            status: 500,
            body: prefixed_body("Database error: ", msg.as_str()),
        },
        Err(e) => {
            let m = e.message();
            ApiResponse { status: 500, body: prefixed_body("Unknown error: ", m.as_str()) }
        },
    }
}

/// What Delete decides before any host work: either a finished response,
/// or the teardown steps owed for the stored record.
pub enum DeleteStep {
    Done(ApiResponse),
    Teardown { remove: Vec<HostAction> },
}

/// The Delete operation up to its host work: recover the stored record —
/// the delete request carries only the number — and hand back the teardown
/// plan built from the record's stored interface name and paths. 400 with
/// the not-found body exactly when the number is absent and the store
/// answered; 500 on a storage fault. The registry row is not touched here:
/// it falls only after the teardown succeeded.
pub fn handle_del(db: &PeerDb, cfg: &StaticConfig, asn: u64) -> (r: DeleteStep)
    ensures
        (r matches DeleteStep::Teardown { remove } ==> db@.contains_key(asn) && views_of(remove@)
            == spec_remove_actions(
            cfg@,
            db@[asn].interface_name,
            db@[asn].wireguard_config_path,
            db@[asn].bird_config_path,
        )),
        (r matches DeleteStep::Done(resp) ==> (resp.status == 400 || resp.status == 500) && (
        resp.status == 400 ==> !db@.contains_key(asn) && resp.body@ == spec_peer_not_found_body(
            asn,
        )) && (resp.status == 500 ==> spec_storage_error_body(resp.body@))),
        !db@.contains_key(asn) ==> r is Done,
{
    match get_peer_by_asn(db, asn) {
        Ok(p) => DeleteStep::Teardown {
            remove: remove_config(
                cfg,
                p.interface_name.as_str(),
                p.wireguard_config_path.as_str(),
                p.bird_config_path.as_str(),
            ),
        },
        Err(PeerDbError::NotFound) => DeleteStep::Done(
            ApiResponse { status: 400, body: body_with_asn("Peer not found: ", asn) },
        ),
        Err(PeerDbError::RusqliteError(msg)) => DeleteStep::Done(
            ApiResponse { status: 500, body: prefixed_body("Database error: ", msg.as_str()) },
        ),
        Err(e) => {
            let m = e.message();
            DeleteStep::Done(
                ApiResponse { status: 500, body: prefixed_body("Unknown error: ", m.as_str()) },
            )
        },
    }
}

/// The end of a Delete whose teardown succeeded: drop the registry row and
/// confirm; 200 exactly when a row fell, and then exactly this number's
/// row; on any failure the registry is unchanged.
pub fn handle_del_finish(db: &mut PeerDb, asn: u64) -> (r: ApiResponse)
    ensures
        r.status == 200 || r.status == 400 || r.status == 500,
        r.status == 200 ==> old(db)@.contains_key(asn) && final(db)@ == old(db)@.remove(asn)
            && r.body@ == spec_peer_deleted_body(asn),
        r.status == 400 ==> !old(db)@.contains_key(asn) && final(db)@ == old(db)@ && r.body@
            == spec_peer_not_found_body(asn),
        r.status == 500 ==> final(db)@ == old(db)@ && spec_storage_error_body(r.body@),
{
    match delete_peer_by_asn(db, asn) {
        Ok(_) => ApiResponse { status: 200, body: body_with_asn("Peer deleted: ", asn) },
        Err(PeerDbError::NotFound) => ApiResponse {
            status: 400,
            body: body_with_asn("Peer not found: ", asn),
        },
        Err(PeerDbError::RusqliteError(msg)) => ApiResponse {
            status: 500,
            body: prefixed_body("Database error: ", msg.as_str()),
        },
        Err(e) => {
            let m = e.message();
            ApiResponse { status: 500, body: prefixed_body("Unknown error: ", m.as_str()) }
        },
    }
}

/// The response when a file write of the save phase failed; the registry
/// row stays as a reported inconsistency.
pub fn save_failure_response(detail: &str) -> (r: ApiResponse)
    ensures
        r.status == 500,
        r.body@ == "Failed to save config: "@ + detail@,
{
    ApiResponse { status: 500, body: prefixed_body("Failed to save config: ", detail) }
}

/// The response when an activation command failed; the registry row stays
/// as a reported inconsistency.
pub fn apply_failure_response(detail: &str) -> (r: ApiResponse)
    ensures
        r.status == 500,
        r.body@ == "Failed to apply config: "@ + detail@,
{
    ApiResponse { status: 500, body: prefixed_body("Failed to apply config: ", detail) }
}

/// The response when a teardown step failed; the registry row is left
/// intact, since the host state is presumed still partially present.
pub fn remove_failure_response(detail: &str) -> (r: ApiResponse)
    ensures
        r.status == 500,
        r.body@ == "error: "@ + detail@,
{
    ApiResponse { status: 500, body: prefixed_body("error: ", detail) }
}

} // verus!
