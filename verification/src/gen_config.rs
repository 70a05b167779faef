use vstd::prelude::*;

use crate::config::StaticConfig;
use crate::model::{spec_interface_name, spec_listen_port, DeriveError, Peer};
use crate::text::{spec_dec, u64_to_string};

verus! {

// The two configuration documents are rendered here, byte for byte. Both
// renderings are pure functions of their fields, so deriving a peer's
// artifacts twice from the same inputs yields identical documents.

/// Fields of the point-to-point tunnel configuration document.
pub struct WireguardConfig {
    pub wireguard_private_key: String,
    pub wireguard_listen_port: u16,
    pub wireguard_link_local_ipv6: String,
    pub wireguard_peer_public_key: String,
    pub wireguard_peer_endpoint: String,
}

/// Fields of the routing-daemon peer configuration document.
pub struct BirdConfig {
    pub interface_name: String,
    pub wireguard_link_local_ipv6: String,
    pub peer_link_local_ipv6: String,
    pub peer_asn: u64,
}

/// The exact text of the tunnel configuration document.
pub open spec fn spec_wireguard_config_text(
    private_key: Seq<char>,
    listen_port: u16,
    link_local: Seq<char>,
    peer_key: Seq<char>,
    peer_endpoint: Seq<char>,
) -> Seq<char> {
    "[Interface]\nPrivateKey = "@ + private_key + "\nListenPort = "@ + spec_dec(
        listen_port as nat,
    ) + "\nPostUp = ip addr add "@ + link_local + "/64 dev %i\nTable = off\n\n[Peer]\nPublicKey = "@
        + peer_key + "\nEndpoint = "@ + peer_endpoint
        + "\nAllowedIPs = fe80::/64, fd00::/8\nPersistentKeepalive = 25\n"@
}

/// The exact text of the routing-daemon peer configuration document.
pub open spec fn spec_bird_config_text(
    interface_name: Seq<char>,
    link_local: Seq<char>,
    peer_link_local: Seq<char>,
    peer_asn: u64,
) -> Seq<char> {
    "protocol bgp "@ + interface_name + " from dnpeers {\n    source address "@ + link_local
        + ";\n    neighbor "@ + peer_link_local + " % '"@ + interface_name + "' as "@ + spec_dec(
        peer_asn as nat,
    ) + ";\n}\n"@
}

impl WireguardConfig {
    pub fn render(&self) -> (r: String)
        ensures
            r@ == spec_wireguard_config_text(
                self.wireguard_private_key@,
                self.wireguard_listen_port,
                self.wireguard_link_local_ipv6@,
                self.wireguard_peer_public_key@,
                self.wireguard_peer_endpoint@,
            ),
    {
        let mut s = String::from_str("[Interface]\nPrivateKey = ");
        s.append(self.wireguard_private_key.as_str());
        s.append("\nListenPort = ");
        let port = u64_to_string(self.wireguard_listen_port as u64);
        s.append(port.as_str());
        s.append("\nPostUp = ip addr add ");
        s.append(self.wireguard_link_local_ipv6.as_str());
        s.append("/64 dev %i\nTable = off\n\n[Peer]\nPublicKey = ");
        s.append(self.wireguard_peer_public_key.as_str());
        s.append("\nEndpoint = ");
        s.append(self.wireguard_peer_endpoint.as_str());
        s.append("\nAllowedIPs = fe80::/64, fd00::/8\nPersistentKeepalive = 25\n");
        s
    }
}

impl BirdConfig {
    pub fn render(&self) -> (r: String)
        ensures
            r@ == spec_bird_config_text(
                self.interface_name@,
                self.wireguard_link_local_ipv6@,
                self.peer_link_local_ipv6@,
                self.peer_asn,
            ),
    {
        let mut s = String::from_str("protocol bgp ");
        s.append(self.interface_name.as_str());
        s.append(" from dnpeers {\n    source address ");
        s.append(self.wireguard_link_local_ipv6.as_str());
        s.append(";\n    neighbor ");
        s.append(self.peer_link_local_ipv6.as_str());
        s.append(" % '");
        s.append(self.interface_name.as_str());
        s.append("' as ");
        let asn = u64_to_string(self.peer_asn);
        s.append(asn.as_str());
        s.append(";\n}\n");
        s
    }
}

/// The tunnel document a peer and the static configuration derive: present
/// exactly when the listen port lands in the usable range.
pub open spec fn spec_wireguard_config_for(peer: crate::model::PeerV, cfg: crate::config::StaticConfigV) -> Seq<
    char,
> {
    spec_wireguard_config_text(
        cfg.wireguard_private_key,
        spec_listen_port(peer.asn, cfg.port_prefix_number) as u16,
        cfg.link_local,
        peer.wireguard_public_key,
        peer.wireguard_endpoint,
    )
}

/// The routing document a peer and the static configuration derive.
pub open spec fn spec_bird_config_for(peer: crate::model::PeerV, cfg: crate::config::StaticConfigV) -> Seq<
    char,
> {
    spec_bird_config_text(
        spec_interface_name(peer.asn),
        cfg.link_local,
        peer.wireguard_link_local,
        peer.asn,
    )
}

/// Renders the tunnel document for a peer; fails exactly when the derived
/// listen port falls outside [1024, 65535].
pub fn gen_wireguard_config(peer: &Peer, cfg: &StaticConfig) -> (r: Result<String, DeriveError>)
    ensures
        r is Ok <==> 1024 <= spec_listen_port(peer.asn, cfg.port_prefix_number) <= 65535,
        r matches Ok(s) ==> s@ == spec_wireguard_config_for(peer@, cfg@),
{
    let listen_port = match peer.gen_listen_port(cfg.port_prefix_number) {
        Ok(port) => port,
        Err(e) => {
            return Err(e);
        },
    };
    let wg_config = WireguardConfig {
        wireguard_private_key: cfg.wireguard_private_key.clone(),
        wireguard_listen_port: listen_port,
        wireguard_link_local_ipv6: cfg.link_local.clone(),
        wireguard_peer_public_key: peer.wireguard_public_key.clone(),
        wireguard_peer_endpoint: peer.wireguard_endpoint.clone(),
    };
    Ok(wg_config.render())
}

/// Renders the routing-daemon peer document for a peer; rendering cannot
/// fail.
pub fn gen_bird_config(peer: &Peer, cfg: &StaticConfig) -> (r: String)
    ensures
        r@ == spec_bird_config_for(peer@, cfg@),
{
    let bird_config = BirdConfig {
        interface_name: peer.gen_interface_name(),
        wireguard_link_local_ipv6: cfg.link_local.clone(),
        peer_link_local_ipv6: peer.wireguard_link_local.clone(),
        peer_asn: peer.asn,
    };
    bird_config.render()
}

/// Law: every derived artifact is a pure function of the peer and the
/// static configuration, so deriving twice from the same values yields
/// byte-identical paths and documents.
pub proof fn lemma_derivation_idempotent(
    a: crate::model::PeerV,
    b: crate::model::PeerV,
    ca: crate::config::StaticConfigV,
    cb: crate::config::StaticConfigV,
)
    requires
        a == b,
        ca == cb,
    ensures
        spec_interface_name(a.asn) == spec_interface_name(b.asn),
        crate::model::spec_wireguard_config_path(a.asn) == crate::model::spec_wireguard_config_path(
            b.asn,
        ),
        crate::model::spec_bird_config_path(a.asn) == crate::model::spec_bird_config_path(b.asn),
        spec_listen_port(a.asn, ca.port_prefix_number) == spec_listen_port(
            b.asn,
            cb.port_prefix_number,
        ),
        spec_wireguard_config_for(a, ca) == spec_wireguard_config_for(b, cb),
        spec_bird_config_for(a, ca) == spec_bird_config_for(b, cb),
{
}

} // verus!
