//! The destination policy: which backend a sniffed payload selects, and the
//! laws that the policy obeys.
//!
//! Rules are tried in a fixed order and the first match wins: a payload that
//! contains `ssh` in any case selects the SSH backend, else one that contains
//! `udp` in any case selects the UDP gateway, else the payload selects
//! OpenVPN. An empty sniff selects OpenVPN.
use vstd::prelude::*;
use crate::config::Config;
use crate::sniff::{contains, contains_bytes, lemma_lowered_idempotent, lowercase, lowered, occurs_at, window_of};

verus! {

/// The backend services that a session can be relayed to.
#[derive(Clone, Copy, Debug, PartialEq, Eq, Structural)]
pub enum Backend {
    Ssh,
    UdpGateway,
    OpenVpn,
}

/// The tag that selects the SSH backend: `ssh`.
pub open spec fn ssh_tag() -> Seq<u8> {
    seq![115u8, 115u8, 104u8]
}

/// The tag that selects the UDP gateway: `udp`.
pub open spec fn udp_tag() -> Seq<u8> {
    seq![117u8, 100u8, 112u8]
}

/// The backend that a sniffed payload selects: the first rule that matches
/// the payload folded to lower case.
pub open spec fn backend_for(data: Seq<u8>) -> Backend {
    if contains(lowered(data), ssh_tag()) {
        Backend::Ssh
    } else if contains(lowered(data), udp_tag()) {
        Backend::UdpGateway
    } else {
        Backend::OpenVpn
    }
}

/// Selects the backend for a sniffed payload: SSH where it contains `ssh`
/// in any case, else the UDP gateway where it contains `udp` in any case,
/// else OpenVPN.
pub fn select_backend(data: &[u8]) -> (r: Backend)
    ensures
        r == backend_for(data@),
{
    let folded = lowercase(data);
    let ssh: [u8; 3] = [115u8, 115u8, 104u8];
    let udp: [u8; 3] = [117u8, 100u8, 112u8];
    assert(ssh@ =~= ssh_tag());
    assert(udp@ =~= udp_tag());
    if contains_bytes(folded.as_slice(), ssh.as_slice()) {
        Backend::Ssh
    } else if contains_bytes(folded.as_slice(), udp.as_slice()) {
        Backend::UdpGateway
    } else {
        Backend::OpenVpn
    }
}

/// The address that `cfg` gives to the backend that `data` selects.
pub open spec fn destination_of(cfg: Config, data: Seq<u8>) -> Seq<char> {
    cfg.address_spec(backend_for(data))
}

/// Selection ignores case: a payload selects the same backend as the
/// payload folded to lower case.
pub proof fn lemma_selection_ignores_case(data: Seq<u8>)
    ensures
        backend_for(lowered(data)) == backend_for(data),
{
    lemma_lowered_idempotent(data);
}

/// A payload that contains `ssh`, in any case and at any position, is
/// relayed to the SSH backend at `0.0.0.0:22`.
pub proof fn lemma_ssh_selects_ssh(cfg: Config, data: Seq<u8>, i: int)
    requires
        occurs_at(lowered(data), ssh_tag(), i),
    ensures
        backend_for(data) == Backend::Ssh,
        destination_of(cfg, data) == "0.0.0.0:22"@,
{
}

/// A payload that contains `udp` in any case, and does not contain `ssh` in
/// any case, is relayed to the configured UDP gateway.
pub proof fn lemma_udp_selects_gateway(cfg: Config, data: Seq<u8>, i: int)
    requires
        occurs_at(lowered(data), udp_tag(), i),
        !contains(lowered(data), ssh_tag()),
    ensures
        backend_for(data) == Backend::UdpGateway,
        destination_of(cfg, data) == cfg.udpgw@,
{
}

/// A payload that contains neither `ssh` nor `udp`, in any case, is relayed
/// to the OpenVPN backend at `0.0.0.0:1194`.
pub proof fn lemma_other_selects_openvpn(cfg: Config, data: Seq<u8>)
    requires
        !contains(lowered(data), ssh_tag()),
        !contains(lowered(data), udp_tag()),
    ensures
        backend_for(data) == Backend::OpenVpn,
        destination_of(cfg, data) == "0.0.0.0:1194"@,
{
}

/// An empty sniff, and a sniff that timed out or failed, select OpenVPN.
pub proof fn lemma_empty_sniff_selects_openvpn(cfg: Config)
    ensures
        backend_for(Seq::empty()) == Backend::OpenVpn,
        destination_of(cfg, Seq::empty()) == "0.0.0.0:1194"@,
        window_of(None) == Seq::<u8>::empty(),
{
    assert(lowered(Seq::empty()) =~= Seq::<u8>::empty());
    assert(!contains(Seq::<u8>::empty(), ssh_tag()));
    assert(!contains(Seq::<u8>::empty(), udp_tag()));
}

/// The SSH rule comes first: a payload that contains both `ssh` and `udp`,
/// in any case, selects SSH.
pub proof fn lemma_ssh_rule_first(cfg: Config, data: Seq<u8>, i: int, j: int)
    requires
        occurs_at(lowered(data), ssh_tag(), i),
        occurs_at(lowered(data), udp_tag(), j),
    ensures
        backend_for(data) == Backend::Ssh,
        destination_of(cfg, data) == "0.0.0.0:22"@,
{
}

} // verus!
