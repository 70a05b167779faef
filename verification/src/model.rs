use vstd::prelude::*;

use crate::ipv6::spec_parse_ipv6;
use crate::text::{spec_dec, str_to_chars, u64_to_string};

verus! {

/// A peer provisioning request as received from the transport layer.
/// No invariants hold on construction; every field is checked explicitly.
pub struct Peer {
    pub asn: u64,
    pub wireguard_endpoint: String,
    pub wireguard_link_local: String,
    pub wireguard_public_key: String,
}

/// The view of a request: the number and the three texts as character
/// sequences.
#[verifier::ext_equal]
pub ghost struct PeerV {
    pub asn: u64,
    pub wireguard_endpoint: Seq<char>,
    pub wireguard_link_local: Seq<char>,
    pub wireguard_public_key: Seq<char>,
}

impl View for Peer {
    type V = PeerV;

    open spec fn view(&self) -> PeerV {
        PeerV {
            asn: self.asn,
            wireguard_endpoint: self.wireguard_endpoint@,
            wireguard_link_local: self.wireguard_link_local@,
            wireguard_public_key: self.wireguard_public_key@,
        }
    }
}

/// Smallest autonomous-system number of the private-use block this
/// service manages.
pub const ASN_MIN: u64 = 4242420000;

/// Largest autonomous-system number of the private-use block.
pub const ASN_MAX: u64 = 4242429999;

/// The autonomous-system number check: the block holds exactly the
/// 10000 values from `ASN_MIN` through `ASN_MAX`.
pub open spec fn spec_valid_asn(asn: u64) -> bool {
    ASN_MIN <= asn <= ASN_MAX
}

/// What `url::Url::parse` makes of `wg://` followed by the endpoint text:
/// the URL's explicit port, when the URL parses and has a host and a port;
/// the parse is a function of the text alone.
pub uninterp spec fn endpoint_host_port(s: Seq<char>) -> Option<u16>;

/// Relies on url::Url::parse (with Url::host and Url::port): parsing is
/// deterministic, and port returns only a port given explicitly in the text.
#[verifier::external_body]
fn parse_endpoint_port(endpoint: &str) -> (r: Option<u16>)
    ensures
        r == endpoint_host_port(endpoint@),
{
    let text = format!("wg://{}", endpoint);
    match url::Url::parse(&text) {
        Ok(u) => match (u.host(), u.port()) {
            (Some(_), Some(p)) => Some(p),
            _ => None,
        },
        Err(_) => None,
    }
}

/// What the standard base64 alphabet with mandatory padding decodes a text
/// to, if it decodes at all; a function of the text alone.
pub uninterp spec fn base64_decoded(s: Seq<char>) -> Option<Seq<u8>>;

/// Relies on base64's Engine::decode with the STANDARD engine: decoding is
/// deterministic and total over its input text.
#[verifier::external_body]
fn base64_decode(s: &str) -> (r: Option<Vec<u8>>)
    ensures
        (match r {
            Some(v) => base64_decoded(s@) == Some(v@),
            None => base64_decoded(s@) is None,
        }),
{
    base64::Engine::decode(&base64::engine::general_purpose::STANDARD, s).ok()
}

/// The endpoint check: the text must parse as `host:port` with a nonzero
/// port.
pub open spec fn spec_valid_endpoint(s: Seq<char>) -> bool {
    match endpoint_host_port(s) {
        Some(p) => p > 0,
        None => false,
    }
}

/// The link-local check: the text must parse as an IPv6 address lying in
/// fe80::/10, that is, with `1111111010` as its top 10 bits.
pub open spec fn spec_valid_link_local(s: Seq<char>) -> bool {
    match spec_parse_ipv6(s) {
        Some(segs) => (segs[0] & 0xFFC0) == 0xFE80,
        None => false,
    }
}

/// The public-key check: exactly 44 characters of standard base64 that
/// decode to exactly 32 bytes.
pub open spec fn spec_valid_public_key(s: Seq<char>) -> bool {
    s.len() == 44 && match base64_decoded(s) {
        Some(b) => b.len() == 32,
        None => false,
    }
}

/// Why deriving the listen port can fail: the combined number falls
/// outside the usable port range. Startup configuration checks should
/// already exclude this; it is reported, not treated as a crash.
#[derive(PartialEq, Eq, Structural, Clone, Copy, Debug)]
pub enum DeriveError {
    InvalidPort,
}

/// The tunnel interface name derived from an autonomous-system number:
/// `dn42_` followed by the last four digits in decimal.
pub open spec fn spec_interface_name(asn: u64) -> Seq<char> {
    "dn42_"@ + spec_dec((asn % 10000) as nat)
}

/// The path of the tunnel configuration file for one interface.
pub open spec fn spec_wireguard_config_path(asn: u64) -> Seq<char> {
    "/etc/wireguard/"@ + spec_interface_name(asn) + ".conf"@
}

/// The path of the routing-daemon peer configuration file for one interface.
pub open spec fn spec_bird_config_path(asn: u64) -> Seq<char> {
    "/etc/bird/peers/"@ + spec_interface_name(asn) + ".conf"@
}

/// The tunnel listen port derived from an autonomous-system number and the
/// configured port-prefix digit, before the range check.
pub open spec fn spec_listen_port(asn: u64, port_prefix: u16) -> int {
    port_prefix * 10000 + asn % 10000
}

impl Peer {
    pub fn is_valid_asn(&self) -> (r: bool)
        ensures
            r == spec_valid_asn(self.asn),
    {
        self.asn >= ASN_MIN && self.asn <= ASN_MAX
    }

    pub fn is_valid_wireguard_endpoint(&self) -> (r: bool)
        ensures
            r == spec_valid_endpoint(self.wireguard_endpoint@),
    {
        match parse_endpoint_port(self.wireguard_endpoint.as_str()) {
            Some(p) => p > 0,
            None => false,
        }
    }

    pub fn is_valid_link_local(&self) -> (r: bool)
        ensures
            r == spec_valid_link_local(self.wireguard_link_local@),
    {
        let chars = str_to_chars(self.wireguard_link_local.as_str());
        match crate::ipv6::parse_ipv6(&chars) {
            Some(segs) => (segs[0] & 0xFFC0) == 0xFE80,
            None => false,
        }
    }

    pub fn is_valid_wireguard_public_key(&self) -> (r: bool)
        ensures
            r == spec_valid_public_key(self.wireguard_public_key@),
    {
        if self.wireguard_public_key.as_str().unicode_len() != 44 {
            return false;
        }
        match base64_decode(self.wireguard_public_key.as_str()) {
            Some(bytes) => bytes.len() == 32,
            None => false,
        }
    }

    pub fn gen_interface_name(&self) -> (r: String)
        ensures
            r@ == spec_interface_name(self.asn),
    {
        let mut s = String::from_str("dn42_");
        let digits = u64_to_string(self.asn % 10000);
        s.append(digits.as_str());
        s
    }

    pub fn gen_wireguard_config_path(&self) -> (r: String)
        ensures
            r@ == spec_wireguard_config_path(self.asn),
    {
        let mut s = String::from_str("/etc/wireguard/");
        let name = self.gen_interface_name();
        s.append(name.as_str());
        s.append(".conf");
        s
    }

    pub fn gen_bird_config_path(&self) -> (r: String)
        ensures
            r@ == spec_bird_config_path(self.asn),
    {
        let mut s = String::from_str("/etc/bird/peers/");
        let name = self.gen_interface_name();
        s.append(name.as_str());
        s.append(".conf");
        s
    }

    /// Fails exactly when the combined number is outside [1024, 65535]; on
    /// success the returned port is that number.
    pub fn gen_listen_port(&self, port_prefix: u16) -> (r: Result<u16, DeriveError>)
        ensures
            r is Ok <==> 1024 <= spec_listen_port(self.asn, port_prefix) <= 65535,
            r matches Ok(p) ==> p == spec_listen_port(self.asn, port_prefix),
    {
        let asn_suffix: u64 = self.asn % 10000;
        let combined: u64 = (port_prefix as u64) * 10000 + asn_suffix;
        if combined > 65535 || combined < 1024 {
            Err(DeriveError::InvalidPort)
        } else {
            Ok(combined as u16)
        }
    }
}

/// Law: the link-local check accepts a text exactly when it parses as an
/// IPv6 address whose top 10 bits are `1111111010`, the `fe80::/10` prefix.
pub proof fn lemma_link_local_check(s: Seq<char>)
    ensures
        spec_valid_link_local(s) <==> (spec_parse_ipv6(s) matches Some(segs) && segs[0] >> 6
            == 0x3fau16),
{
    match spec_parse_ipv6(s) {
        Some(segs) => {
            let x = segs[0];
            assert((x & 0xFFC0) == 0xFE80 <==> (x >> 6) == 0x3fau16) by (bit_vector);
        },
        None => {},
    }
}

/// Law: the public-key check accepts exactly the 44-character texts whose
/// base64 decoding yields 32 bytes; in particular every text of another
/// length, and every 44-character text that does not decode or decodes to
/// another byte count, is rejected.
pub proof fn lemma_public_key_check(s: Seq<char>)
    ensures
        spec_valid_public_key(s) <==> (s.len() == 44 && (base64_decoded(s) matches Some(b)
            && b.len() == 32)),
        s.len() != 44 ==> !spec_valid_public_key(s),
        base64_decoded(s) is None ==> !spec_valid_public_key(s),
        base64_decoded(s) matches Some(b) && b.len() != 32 ==> !spec_valid_public_key(s),
{
}

} // verus!
