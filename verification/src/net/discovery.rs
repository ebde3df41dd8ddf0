//! Announcing and finding receivers by mDNS.
use vstd::prelude::*;

use crate::names::NameMap;
use crate::proto::PROTOCOL_VERSION;
use crate::text::{append, parse_number, strip_suffix};

verus! {

/// The name of the service in DNS-SD. The dot at the end is part of the syntax.
pub const SERVICE_TYPE: &'static str = "_micbridge._udp.local.";

/// The suffix of a service's full name, after the name of the instance.
pub const SERVICE_SUFFIX: &'static str = "._micbridge._udp.local.";

/// TXT keys. The version is announced so that a sender does not try to connect
/// to a receiver that speaks another dialect: better to say so on the list than
/// after the connection stands.
pub const TXT_VERSION: &'static str = "v";

pub const TXT_HOST: &'static str = "host";

/// An address of a machine.
#[derive(Debug, Clone, Copy, PartialEq, Eq, Structural)]
pub enum Ip {
    /// Four bytes.
    V4(u8, u8, u8, u8),
    /// The eight 16-bit groups, as one number.
    V6(u128),
}

/// An address with a port.
#[derive(Debug, Clone, Copy, PartialEq, Eq, Structural)]
pub struct Endpoint {
    pub ip: Ip,
    pub port: u16,
}

/// In which order to try announced addresses. Less means earlier.
///
/// A machine announces everything it has, loopback and all. That one works only
/// where both sides stand on the same computer, which is a case for tests and
/// not for every day, so it goes last.
///
/// IPv4 comes before IPv6, because it is more reliable in home networks.
/// Link-local addresses stand apart, at the far end before loopback: `fe80::`
/// cannot even be connected to without an interface index, and mDNS does not
/// carry that. An order, not a sieve: an address that is no use is still better
/// than an empty list when there is no other.
pub open spec fn rank_of(addr: Ip) -> u8 {
    match addr {
        Ip::V4(a, b, _, _) => if a == 127 {
            4
        } else if a == 169 && b == 254 {
            2
        } else {
            0
        },
        Ip::V6(v6) => if v6 == 1 {
            5
        } else if v6 / 0x40_0000_0000_0000_0000_0000_0000_0000 == 0x3fa {
            3
        } else {
            1
        },
    }
}

/// In which order to try an announced address.
pub fn rank(addr: &Ip) -> (r: u8)
    ensures
        r == rank_of(*addr),
{
    match addr {
        Ip::V4(a, b, _, _) => if *a == 127 {
            4
        } else if *a == 169 && *b == 254 {
            2
        } else {
            0
        },
        Ip::V6(v6) => if *v6 == 1 {
            5
        } else if *v6 / 0x40_0000_0000_0000_0000_0000_0000_0000 == 0x3fa {
            3
        } else {
            1
        },
    }
}

/// The addresses of the ranks below `n`, rank by rank, in their order otherwise.
pub open spec fn by_rank(addrs: Seq<Ip>, n: nat) -> Seq<Ip>
    decreases n,
{
    if n == 0 {
        Seq::empty()
    } else {
        by_rank(addrs, (n - 1) as nat) + addrs.filter(|a: Ip| rank_of(a) == n - 1)
    }
}

/// How many ranks there are.
pub const RANKS: u8 = 6;

/// Addresses without those that repeat the one before them.
pub open spec fn without_repeats(addrs: Seq<Ip>) -> Seq<Ip>
    decreases addrs.len(),
{
    if addrs.len() == 0 {
        Seq::empty()
    } else {
        let rest = without_repeats(addrs.drop_last());
        if addrs.len() >= 2 && addrs.last() == addrs[addrs.len() - 2] {
            rest
        } else {
            rest.push(addrs.last())
        }
    }
}

/// The addresses in the order in which to try them.
pub open spec fn ranked(addrs: Seq<Ip>) -> Seq<Ip> {
    without_repeats(by_rank(addrs, RANKS as nat))
}

fn sorted_by_rank(addrs: &Vec<Ip>) -> (r: Vec<Ip>)
    ensures
        r@ == by_rank(addrs@, RANKS as nat),
{
    let mut out: Vec<Ip> = Vec::new();
    let mut n: u8 = 0;
    while n < RANKS
        invariant
            n <= RANKS,
            out@ == by_rank(addrs@, n as nat),
        decreases RANKS - n,
    {
        let ghost before = out@;
        let ghost wanted = |a: Ip| rank_of(a) == n;
        let mut i: usize = 0;
        proof {
            reveal(Seq::filter);
            assert(addrs@.take(0).filter(wanted) =~= Seq::empty());
        }
        while i < addrs.len()
            invariant
                i <= addrs@.len(),
                wanted == (|a: Ip| rank_of(a) == n),
                out@ == before + addrs@.take(i as int).filter(wanted),
            decreases addrs@.len() - i,
        {
            let a: Ip = addrs[i];
            proof {
                reveal(Seq::filter);
                assert(addrs@.take(i + 1).drop_last() =~= addrs@.take(i as int));
                assert(addrs@.take(i + 1).last() == a);
            }
            if rank(&a) == n {
                out.push(a);
            }
            assert(out@ =~= before + addrs@.take(i + 1).filter(wanted));
            i += 1;
        }
        proof {
            assert(addrs@.take(i as int) =~= addrs@);
            assert(by_rank(addrs@, (n + 1) as nat) == by_rank(addrs@, n as nat) + addrs@.filter(
                |a: Ip| rank_of(a) == (n + 1) - 1,
            ));
            assert((|a: Ip| rank_of(a) == (n + 1) - 1) =~= wanted);
        }
        n += 1;
    }
    out
}

fn dedup(addrs: &Vec<Ip>) -> (r: Vec<Ip>)
    ensures
        r@ == without_repeats(addrs@),
{
    let mut out: Vec<Ip> = Vec::new();
    let mut i: usize = 0;
    assert(addrs@.take(0) =~= Seq::empty());
    while i < addrs.len()
        invariant
            i <= addrs@.len(),
            out@ == without_repeats(addrs@.take(i as int)),
        decreases addrs@.len() - i,
    {
        proof {
            let next = addrs@.take(i + 1);
            assert(next.drop_last() =~= addrs@.take(i as int));
        }
        let repeats: bool = i > 0 && addrs[i] == addrs[i - 1];
        if !repeats {
            out.push(addrs[i]);
        }
        i += 1;
    }
    assert(addrs@.take(i as int) =~= addrs@);
    out
}

/// A receiver found on the network.
#[derive(Debug)]
pub struct Peer {
    /// The name to show to the user.
    pub name: String,
    /// All addresses that it announced about itself, the most promising first.
    ///
    /// Not one, because a machine with IPv4 and IPv6 announces both, and the
    /// other side at times sees only one of them, and just the one where nobody
    /// listens. Choosing a single winner here closed the way back.
    pub addrs: Vec<Endpoint>,
    /// The version of the protocol that it announces.
    pub version: u32,
}

impl Peer {
    /// Whether it can be talked to.
    pub fn compatible(&self) -> (r: bool)
        ensures
            r == (self.version == PROTOCOL_VERSION),
    {
        self.version == PROTOCOL_VERSION
    }

    /// The address to start from: to show, and for the first attempt.
    pub fn addr(&self) -> (r: Endpoint)
        requires
            self.addrs@.len() > 0,
        ensures
            r == self.addrs@[0],
    {
        self.addrs[0]
    }
}

/// The name of the instance in the full name of a service.
pub open spec fn instance(fullname: Seq<char>) -> Seq<char> {
    if SERVICE_SUFFIX@.is_suffix_of(fullname) {
        fullname.take(fullname.len() - SERVICE_SUFFIX@.len())
    } else {
        fullname
    }
}

/// Takes the name of the instance out of `name._micbridge._udp.local.`.
pub fn instance_of(fullname: &str) -> (r: String)
    ensures
        r@ == instance(fullname@),
{
    match strip_suffix(fullname, SERVICE_SUFFIX) {
        Some(name) => name,
        None => fullname.to_owned(),
    }
}

/// The suffix is the service type after a dot.
pub proof fn the_suffix_names_the_service()
    ensures
        SERVICE_SUFFIX@ == seq!['.'] + SERVICE_TYPE@,
{
    reveal_strlit("._micbridge._udp.local.");
    reveal_strlit("_micbridge._udp.local.");
    assert(SERVICE_SUFFIX@ =~= seq!['.'] + SERVICE_TYPE@);
}

/// A receiver's full name gives back the name it announced.
pub proof fn an_instance_name_survives_the_suffix(name: Seq<char>)
    ensures
        instance(name + SERVICE_SUFFIX@) == name,
{
    let full = name + SERVICE_SUFFIX@;
    assert(SERVICE_SUFFIX@ =~= full.subrange(full.len() - SERVICE_SUFFIX@.len(), full.len() as int));
    assert(full.take(full.len() - SERVICE_SUFFIX@.len()) =~= name);
}

/// A service that answered, as a peer. One without an address is none. The name
/// is the one it announced, or else that of the instance; a version that is
/// missing or no number counts as 0.
pub fn to_peer(
    addresses: &Vec<Ip>,
    port: u16,
    version: &Option<String>,
    host: Option<String>,
    fullname: &str,
) -> (r: Option<Peer>)
    ensures
        r is Some <==> ranked(addresses@).len() > 0,
        r matches Some(peer) ==> {
            &&& peer.name@ == match host {
                Some(h) => h@,
                None => instance(fullname@),
            }
            &&& peer.version == match version {
                Some(v) => match crate::text::parsed(v@, u32::MAX as u64) {
                    Some(n) => n as u32,
                    None => 0,
                },
                None => 0,
            }
            &&& peer.addrs@ == ranked(addresses@).map_values(|ip: Ip| Endpoint { ip, port })
        },
{
    let sorted = sorted_by_rank(addresses);
    let ips = dedup(&sorted);
    if ips.len() == 0 {
        return None;
    }
    let version: u32 = match version {
        Some(v) => match parse_number(v.as_str(), u32::MAX as u64) {
            Some(n) => n as u32,
            None => 0,
        },
        None => 0,
    };
    let name = match host {
        Some(h) => h,
        None => instance_of(fullname),
    };
    let mut addrs: Vec<Endpoint> = Vec::new();
    let mut i: usize = 0;
    while i < ips.len()
        invariant
            i <= ips@.len(),
            addrs@ == ips@.take(i as int).map_values(|ip: Ip| Endpoint { ip, port }),
        decreases ips@.len() - i,
    {
        addrs.push(Endpoint { ip: ips[i], port });
        assert(addrs@ =~= ips@.take(i + 1).map_values(|ip: Ip| Endpoint { ip, port }));
        i += 1;
    }
    assert(ips@.take(i as int) =~= ips@);
    Some(Peer { name, addrs, version })
}

/// What a DNS label may hold.
pub open spec fn in_label(c: char) -> bool {
    'a' <= c <= 'z' || 'A' <= c <= 'Z' || '0' <= c <= '9' || c == '-'
}

/// A text with a dash for everything that a DNS label may not hold.
pub open spec fn cleaned(host: Seq<char>) -> Seq<char> {
    host.map_values(
        |c: char|
            if in_label(c) {
                c
            } else {
                '-'
            },
    )
}

/// The host name for DNS: only what is allowed in a label, and something besides
/// dashes.
pub open spec fn sanitized(host: Seq<char>) -> Seq<char> {
    if forall|i: int| 0 <= i < host.len() ==> cleaned(host)[i] == '-' {
        "micbridge"@
    } else {
        cleaned(host)
    }
}

/// The host name for DNS: only what is allowed in a label.
pub fn sanitize(host: &str) -> (r: String)
    ensures
        r@ == sanitized(host@),
{
    let mut out = String::new();
    let mut bare: bool = true;
    for c in it: host.chars()
        invariant
            it.seq() == host@,
            out@ == cleaned(host@.take(it.index())),
            bare <==> (forall|i: int| 0 <= i < it.index() ==> cleaned(host@)[i] == '-'),
    {
        let kept: char = if ('a' <= c && c <= 'z') || ('A' <= c && c <= 'Z') || ('0' <= c && c
            <= '9') {
            c
        } else {
            '-'
        };
        if kept != '-' {
            assert(cleaned(host@)[it.index() as int] != '-');
            bare = false;
        }
        out.push(kept);
        assert(out@ =~= cleaned(host@.take(it.index() + 1)));
    }
    assert(host@.take(host@.len() as int) =~= host@);
    if bare {
        "micbridge".to_owned()
    } else {
        out
    }
}

/// The name under which a receiver announces its host.
pub fn host_record(host: &str) -> (r: String)
    ensures
        r@ == sanitized(host@) + ".local."@,
{
    let mut out = sanitize(host);
    append(&mut out, ".local.");
    out
}

/// A sanitised name is a legal label: letters, digits and dashes only, and never
/// dashes alone.
pub proof fn sanitised_names_are_legal_labels(host: Seq<char>)
    ensures
        forall|i: int| 0 <= i < sanitized(host).len() ==> in_label(#[trigger] sanitized(host)[i]),
        exists|i: int| 0 <= i < sanitized(host).len() && #[trigger] sanitized(host)[i] != '-',
{
    reveal_strlit("micbridge");
    if forall|i: int| 0 <= i < host.len() ==> cleaned(host)[i] == '-' {
        assert(sanitized(host)[0] == 'm');
    } else {
        let i = choose|i: int| 0 <= i < host.len() && cleaned(host)[i] != '-';
        assert(sanitized(host)[i] != '-');
    }
}

/// The receivers that have answered so far, each once.
///
/// The key is the full name of the service: the same machine may answer from
/// several interfaces at once, and would be on the list twice otherwise.
pub struct Found {
    peers: NameMap<Peer>,
}

impl View for Found {
    /// From full names to peers.
    type V = Map<Seq<char>, Peer>;

    closed spec fn view(&self) -> Map<Seq<char>, Peer> {
        self.peers@
    }
}

impl Found {
    /// The names stand in order.
    pub closed spec fn wf(&self) -> bool {
        self.peers.wf()
    }

    /// The peers with their full names, in the order of those.
    pub closed spec fn listed(&self) -> Seq<(Seq<char>, Peer)> {
        self.peers.listed()
    }

    /// Nobody has answered yet.
    pub fn new() -> (r: Self)
        ensures
            r.wf(),
            r@ == Map::<Seq<char>, Peer>::empty(),
    {
        Found { peers: NameMap::new() }
    }

    /// A service answered. Where it is no peer, nothing changes.
    pub fn on_resolved(&mut self, fullname: String, peer: Option<Peer>)
        requires
            old(self).wf(),
        ensures
            final(self).wf(),
            final(self)@ == match peer {
                Some(p) => old(self)@.insert(fullname@, p),
                None => old(self)@,
            },
    {
        if let Some(p) = peer {
            self.peers.insert(fullname, p);
        }
    }

    /// A service took its announcement back.
    pub fn on_removed(&mut self, fullname: &str)
        requires
            old(self).wf(),
        ensures
            final(self).wf(),
            final(self)@ == old(self)@.remove(fullname@),
    {
        self.peers.remove(fullname);
    }

    /// Everyone who answered, in the order of their full names.
    pub fn into_peers(self) -> (r: Vec<Peer>)
        requires
            self.wf(),
        ensures
            r@ == self.listed().map_values(|e: (Seq<char>, Peer)| e.1),
            crate::names::in_order(self.listed()),
            self@ == crate::names::held(self.listed()),
    {
        let ghost listed = self.listed();
        let mut entries = self.peers.into_entries();
        let mut out: Vec<Peer> = Vec::new();
        assert(entries@.skip(0) =~= entries@);
        let ghost all = entries@;
        let ghost mut taken: int = 0;
        while entries.len() > 0
            invariant
                0 <= taken <= all.len(),
                entries@ == all.skip(taken),
                crate::names::pairs(all) == listed,
                out@ == listed.take(taken).map_values(|e: (Seq<char>, Peer)| e.1),
            decreases entries@.len(),
        {
            let e = entries.remove(0);
            out.push(e.value);
            proof {
                assert(e == all[taken]);
                assert(listed[taken] == (e.name@, e.value));
                assert(out@ =~= listed.take(taken + 1).map_values(|e: (Seq<char>, Peer)| e.1));
                assert(entries@ =~= all.skip(taken + 1));
                taken = taken + 1;
            }
        }
        assert(listed.take(taken) =~= listed);
        out
    }
}

} // verus!
