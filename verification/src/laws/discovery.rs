//! Receivers on the network.
use vstd::prelude::*;

use crate::net::discovery::{
    host_record, instance_of, rank, sanitize, to_peer, Endpoint, Found, Ip, Peer,
};
use crate::text::parse_number;

verus! {

/// An address that leads back to the same machine.
pub open spec fn is_loopback(ip: Ip) -> bool {
    match ip {
        Ip::V4(a, _, _, _) => a == 127,
        Ip::V6(v6) => v6 == 1,
    }
}

/// An address that holds on one link alone: 169.254.0.0/16 or fe80::/10.
pub open spec fn is_link_local(ip: Ip) -> bool {
    match ip {
        Ip::V4(a, b, _, _) => a == 169 && b == 254,
        Ip::V6(v6) => 0xfe80_0000_0000_0000_0000_0000_0000_0000 <= v6
            <= 0xfebf_ffff_ffff_ffff_ffff_ffff_ffff_ffff,
    }
}

/// The most promising address is tried first: any other before one that holds on
/// one link alone, that before one that leads back to the same machine, and of a
/// kind, the shorter sort of address before the longer. Addresses of one kind and
/// sort rank alike.
pub proof fn promising_addresses_rank_first(a: &Ip, b: &Ip, ra: u8, rb: u8)
    requires
        call_ensures(rank, (a,), ra),
        call_ensures(rank, (b,), rb),
    ensures
        !is_loopback(*a) && is_loopback(*b) ==> ra < rb,
        !is_loopback(*a) && !is_link_local(*a) && is_link_local(*b) ==> ra < rb,
        is_loopback(*a) == is_loopback(*b) && is_link_local(*a) == is_link_local(*b) ==> {
            &&& a is V4 && b is V6 ==> ra < rb
            &&& (a is V4) == (b is V4) ==> ra == rb
        },
        ra < 6,
{
    assert(forall|v: u128|
        #![trigger v / 0x40_0000_0000_0000_0000_0000_0000_0000]
        v / 0x40_0000_0000_0000_0000_0000_0000_0000 == 0x3fa
            <==> 0xfe80_0000_0000_0000_0000_0000_0000_0000 <= v
            <= 0xfebf_ffff_ffff_ffff_ffff_ffff_ffff_ffff);
}

/// In what remains of a sequence after a filter, two that follow each other did so
/// before.
proof fn lemma_filter_keeps_order(s: Seq<Ip>, p: spec_fn(Ip) -> bool, i: int, j: int)
    requires
        0 <= i < j < s.filter(p).len(),
    ensures
        exists|x: int, y: int|
            0 <= x < y < s.len() && #[trigger] s[x] == s.filter(p)[i] && #[trigger] s[y]
                == s.filter(p)[j],
    decreases s.len(),
{
    reveal(Seq::filter);
    let less = s.drop_last();
    if p(s.last()) && j == s.filter(p).len() - 1 {
        lemma_filter_comes_from(less, p, i);
        let x = choose|x: int| 0 <= x < less.len() && #[trigger] less[x] == less.filter(p)[i];
        assert(s[x] == s.filter(p)[i] && s[s.len() - 1] == s.filter(p)[j]);
    } else {
        lemma_filter_keeps_order(less, p, i, j);
        let (x, y) = choose|x: int, y: int|
            0 <= x < y < less.len() && #[trigger] less[x] == less.filter(p)[i]
                && #[trigger] less[y] == less.filter(p)[j];
        assert(s[x] == s.filter(p)[i] && s[y] == s.filter(p)[j]);
    }
}

proof fn lemma_filter_comes_from(s: Seq<Ip>, p: spec_fn(Ip) -> bool, i: int)
    requires
        0 <= i < s.filter(p).len(),
    ensures
        p(s.filter(p)[i]),
        exists|x: int| 0 <= x < s.len() && #[trigger] s[x] == s.filter(p)[i],
    decreases s.len(),
{
    reveal(Seq::filter);
    let less = s.drop_last();
    if p(s.last()) && i == s.filter(p).len() - 1 {
        assert(s[s.len() - 1] == s.filter(p)[i]);
    } else {
        lemma_filter_comes_from(less, p, i);
        let x = choose|x: int| 0 <= x < less.len() && #[trigger] less[x] == less.filter(p)[i];
        assert(s[x] == s.filter(p)[i]);
    }
}

proof fn lemma_filter_has(s: Seq<Ip>, p: spec_fn(Ip) -> bool, x: int)
    requires
        0 <= x < s.len(),
        p(s[x]),
    ensures
        s.filter(p).contains(s[x]),
    decreases s.len(),
{
    reveal(Seq::filter);
    let less = s.drop_last();
    if x == s.len() - 1 {
        assert(s.filter(p)[s.filter(p).len() - 1] == s[x]);
    } else {
        lemma_filter_has(less, p, x);
        let i = choose|i: int| 0 <= i < less.filter(p).len() && less.filter(p)[i] == less[x];
        assert(s.filter(p)[i] == s[x]);
    }
}

/// What sorting by rank does: it keeps all there is and nothing else, lower ranks
/// come first, and addresses of one rank stay in their order.
proof fn lemma_by_rank(addrs: Seq<Ip>, n: nat)
    ensures
        ({
            let sorted = crate::net::discovery::by_rank(addrs, n);
            &&& forall|a: Ip| #[trigger]
                sorted.contains(a) <==> addrs.contains(a) && crate::net::discovery::rank_of(a) < n
            &&& forall|i: int, j: int|
                0 <= i < j < sorted.len() ==> crate::net::discovery::rank_of(#[trigger] sorted[i])
                    <= crate::net::discovery::rank_of(#[trigger] sorted[j])
            &&& forall|i: int, j: int|
                0 <= i < j < sorted.len() && crate::net::discovery::rank_of(sorted[i])
                    == crate::net::discovery::rank_of(sorted[j]) ==> follows(
                    addrs,
                    #[trigger] sorted[i],
                    #[trigger] sorted[j],
                )
        }),
    decreases n,
{
    let sorted = crate::net::discovery::by_rank(addrs, n);
    if n > 0 {
        let less = crate::net::discovery::by_rank(addrs, (n - 1) as nat);
        let p = |a: Ip| crate::net::discovery::rank_of(a) == n - 1;
        let last = addrs.filter(p);
        assert(sorted == less + last);
        lemma_by_rank(addrs, (n - 1) as nat);
        assert forall|i: int| 0 <= i < last.len() implies crate::net::discovery::rank_of(
            #[trigger] last[i],
        ) == n - 1 && addrs.contains(last[i]) by {
            lemma_filter_comes_from(addrs, p, i);
        }
        assert forall|i: int| 0 <= i < less.len() implies crate::net::discovery::rank_of(
            #[trigger] less[i],
        ) < n - 1 && addrs.contains(less[i]) by {
            assert(less.contains(less[i]));
        }
        assert forall|a: Ip| #[trigger] sorted.contains(a) <==> addrs.contains(a)
            && crate::net::discovery::rank_of(a) < n by {
            if sorted.contains(a) {
                let i = choose|i: int| 0 <= i < sorted.len() && sorted[i] == a;
                if i < less.len() {
                    assert(less[i] == a);
                } else {
                    assert(last[i - less.len()] == a);
                }
            }
            if addrs.contains(a) && crate::net::discovery::rank_of(a) < n {
                if crate::net::discovery::rank_of(a) == n - 1 {
                    let x = choose|x: int| 0 <= x < addrs.len() && addrs[x] == a;
                    lemma_filter_has(addrs, p, x);
                    let i = choose|i: int| 0 <= i < last.len() && last[i] == a;
                    assert(sorted[less.len() + i] == a);
                } else {
                    assert(less.contains(a));
                    let i = choose|i: int| 0 <= i < less.len() && less[i] == a;
                    assert(sorted[i] == a);
                }
            }
        }
        assert forall|i: int, j: int|
            0 <= i < j < sorted.len() && crate::net::discovery::rank_of(sorted[i])
                == crate::net::discovery::rank_of(sorted[j]) implies follows(
            addrs,
            #[trigger] sorted[i],
            #[trigger] sorted[j],
        ) by {
            if j < less.len() {
                assert(less[i] == sorted[i] && less[j] == sorted[j]);
            } else if i >= less.len() {
                lemma_filter_keeps_order(addrs, p, i - less.len(), j - less.len());
            } else {
                assert(less[i] == sorted[i] && last[j - less.len()] == sorted[j]);
            }
        }
        assert forall|i: int, j: int| 0 <= i < j < sorted.len() implies
            crate::net::discovery::rank_of(#[trigger] sorted[i]) <= crate::net::discovery::rank_of(
            #[trigger] sorted[j],
        ) by {
            if j < less.len() {
                assert(less[i] == sorted[i] && less[j] == sorted[j]);
            } else if i < less.len() {
                assert(less[i] == sorted[i] && last[j - less.len()] == sorted[j]);
            } else {
                assert(last[i - less.len()] == sorted[i] && last[j - less.len()] == sorted[j]);
            }
        }
    }
}

/// One address was announced somewhere before another.
pub open spec fn follows(addrs: Seq<Ip>, first: Ip, second: Ip) -> bool {
    exists|x: int, y: int|
        0 <= x < y < addrs.len() && #[trigger] addrs[x] == first && #[trigger] addrs[y] == second
}

/// What taking repeats out does: the same addresses are left, each comes from a
/// place of its own, in the same order, and none repeats the one before it.
proof fn lemma_without_repeats(s: Seq<Ip>)
    ensures
        ({
            let kept = crate::net::discovery::without_repeats(s);
            &&& forall|a: Ip| #[trigger] kept.contains(a) <==> s.contains(a)
            &&& kept.len() <= s.len()
            &&& s.len() > 0 ==> kept.len() > 0 && kept.last() == s.last()
            &&& forall|i: int| 0 < i < kept.len() ==> #[trigger] kept[i] != kept[i - 1]
            &&& forall|i: int, j: int|
                0 <= i < j < kept.len() ==> follows(s, #[trigger] kept[i], #[trigger] kept[j])
        }),
    decreases s.len(),
{
    if s.len() > 0 {
        let less = s.drop_last();
        let rest = crate::net::discovery::without_repeats(less);
        let kept = crate::net::discovery::without_repeats(s);
        lemma_without_repeats(less);
        assert forall|i: int, j: int| 0 <= i < j < rest.len() implies follows(
            s,
            #[trigger] rest[i],
            #[trigger] rest[j],
        ) by {
            assert(follows(less, rest[i], rest[j]));
            let (x, y) = choose|x: int, y: int|
                0 <= x < y < less.len() && #[trigger] less[x] == rest[i] && #[trigger] less[y]
                    == rest[j];
            assert(s[x] == rest[i] && s[y] == rest[j]);
        }
        if s.len() >= 2 && s.last() == s[s.len() - 2] {
            assert(less.last() == s.last());
            assert forall|a: Ip| #[trigger] kept.contains(a) <==> s.contains(a) by {
                if s.contains(a) {
                    let x = choose|x: int| 0 <= x < s.len() && s[x] == a;
                    if x < less.len() {
                        assert(less[x] == a);
                    } else {
                        assert(less[x - 1] == a);
                    }
                    assert(less.contains(a));
                }
                if rest.contains(a) {
                    assert(less.contains(a));
                    let x = choose|x: int| 0 <= x < less.len() && less[x] == a;
                    assert(s[x] == a);
                }
            }
        } else {
            assert(kept == rest.push(s.last()));
            assert forall|a: Ip| #[trigger] kept.contains(a) <==> s.contains(a) by {
                if s.contains(a) {
                    let x = choose|x: int| 0 <= x < s.len() && s[x] == a;
                    if x < less.len() {
                        assert(less[x] == a);
                        assert(rest.contains(a));
                        let i = choose|i: int| 0 <= i < rest.len() && rest[i] == a;
                        assert(kept[i] == a);
                    } else {
                        assert(kept[kept.len() - 1] == a);
                    }
                }
                if kept.contains(a) {
                    let i = choose|i: int| 0 <= i < kept.len() && kept[i] == a;
                    if i < rest.len() {
                        assert(rest[i] == a);
                        assert(less.contains(a));
                        let x = choose|x: int| 0 <= x < less.len() && less[x] == a;
                        assert(s[x] == a);
                    } else {
                        assert(s[s.len() - 1] == a);
                    }
                }
            }
            assert forall|i: int| 0 < i < kept.len() implies #[trigger] kept[i] != kept[i - 1] by {
                if i == rest.len() {
                    assert(less.len() > 0 && rest.last() == less.last());
                } else {
                    assert(rest[i] == kept[i] && rest[i - 1] == kept[i - 1]);
                }
            }
            assert forall|i: int, j: int| 0 <= i < j < kept.len() implies follows(
                s,
                #[trigger] kept[i],
                #[trigger] kept[j],
            ) by {
                if j < rest.len() {
                    assert(rest[i] == kept[i] && rest[j] == kept[j]);
                } else {
                    assert(rest[i] == kept[i]);
                    assert(rest.contains(rest[i]));
                    assert(less.contains(rest[i]));
                    let x = choose|x: int| 0 <= x < less.len() && less[x] == rest[i];
                    assert(s[x] == kept[i] && s[s.len() - 1] == kept[j]);
                }
            }
        }
    }
}

/// A receiver is one that announced an address. Every address that it announced is
/// on its list, with the announced port, and no other; a lower rank comes first;
/// of one rank, one comes after another only where it was announced after it; and
/// none stands twice in a row.
pub proof fn every_announced_address_is_kept(
    addresses: &Vec<Ip>,
    port: u16,
    version: &Option<String>,
    host: Option<String>,
    fullname: &str,
    r: Option<Peer>,
)
    requires
        call_ensures(to_peer, (addresses, port, version, host, fullname), r),
    ensures
        r is Some <==> addresses@.len() > 0,
        r matches Some(peer) ==> {
            let list = peer.addrs@;
            &&& forall|ip: Ip| #[trigger]
                addresses@.contains(ip) <==> list.contains(Endpoint { ip, port })
            &&& forall|i: int| 0 <= i < list.len() ==> (#[trigger] list[i]).port == port
            &&& forall|i: int, j: int, x: u8, y: u8|
                #![trigger call_ensures(rank, (&list[i].ip,), x), call_ensures(rank, (&list[j].ip,), y)]
                0 <= i < j < list.len() && call_ensures(rank, (&list[i].ip,), x) && call_ensures(
                    rank,
                    (&list[j].ip,),
                    y,
                ) ==> x <= y && (x == y ==> follows(addresses@, list[i].ip, list[j].ip))
            &&& forall|i: int| 0 < i < list.len() ==> #[trigger] list[i] != list[i - 1]
        },
{
    let sorted = crate::net::discovery::by_rank(addresses@, 6);
    let kept = crate::net::discovery::ranked(addresses@);
    lemma_by_rank(addresses@, 6);
    lemma_without_repeats(sorted);
    if addresses@.len() > 0 {
        assert(addresses@.contains(addresses@[0]));
        assert(sorted.contains(addresses@[0]));
        assert(kept.contains(addresses@[0]));
    }
    if kept.len() > 0 {
        assert(kept.contains(kept[0]));
        assert(sorted.contains(kept[0]));
        assert(addresses@.contains(kept[0]));
    }
    if let Some(peer) = r {
        let list = peer.addrs@;
        assert(list.len() == kept.len());
        assert forall|i: int| 0 <= i < list.len() implies #[trigger] list[i] == (Endpoint {
            ip: kept[i],
            port,
        }) by {}
        assert forall|ip: Ip| #[trigger] addresses@.contains(ip) <==> list.contains(
            Endpoint { ip, port },
        ) by {
            if addresses@.contains(ip) {
                assert(sorted.contains(ip));
                assert(kept.contains(ip));
                let i = choose|i: int| 0 <= i < kept.len() && kept[i] == ip;
                assert(list[i] == (Endpoint { ip, port }));
            }
            if list.contains(Endpoint { ip, port }) {
                let i = choose|i: int| 0 <= i < list.len() && list[i] == (Endpoint { ip, port });
                assert(kept[i] == ip);
                assert(kept.contains(ip));
                assert(sorted.contains(ip));
            }
        }
        assert forall|i: int| 0 < i < list.len() implies #[trigger] list[i] != list[i - 1] by {
            assert(kept[i] != kept[i - 1]);
            assert(list[i - 1] == (Endpoint { ip: kept[i - 1], port }));
        }
        assert forall|i: int, j: int, x: u8, y: u8|
            #![trigger call_ensures(rank, (&list[i].ip,), x), call_ensures(rank, (&list[j].ip,), y)]
            0 <= i < j < list.len() && call_ensures(rank, (&list[i].ip,), x) && call_ensures(
                rank,
                (&list[j].ip,),
                y,
            ) implies x <= y && (x == y ==> follows(addresses@, list[i].ip, list[j].ip)) by {
            assert(list[i].ip == kept[i] && list[j].ip == kept[j]);
            assert(follows(sorted, kept[i], kept[j]));
            let (p, q) = choose|p: int, q: int|
                0 <= p < q < sorted.len() && #[trigger] sorted[p] == kept[i]
                    && #[trigger] sorted[q] == kept[j];
            assert(crate::net::discovery::rank_of(sorted[p]) <= crate::net::discovery::rank_of(
                sorted[q],
            ));
        }
    }
}

/// A receiver goes by the name that it announced, and else by that of its service
/// instance. Its version is the announced number; one that is missing or no number
/// counts as 0, which is no version of ours. The address to start from is the first
/// on the list.
pub proof fn a_receiver_is_described_as_announced(
    addresses: &Vec<Ip>,
    port: u16,
    version: &Option<String>,
    host: Option<String>,
    fullname: &str,
    peer: Peer,
    instance: String,
    text: &str,
    parsed: Option<u64>,
    ours: bool,
    first: Endpoint,
)
    requires
        call_ensures(to_peer, (addresses, port, version, host, fullname), Some(peer)),
        call_ensures(instance_of, (fullname,), instance),
        version matches Some(v) ==> text@ == v@,
        call_ensures(parse_number, (text, u32::MAX as u64), parsed),
        call_ensures(Peer::compatible, (&peer,), ours),
        call_ensures(Peer::addr, (&peer,), first),
    ensures
        host matches Some(h) ==> peer.name@ == h@,
        host is None ==> peer.name@ == instance@,
        version is None ==> peer.version == 0,
        version is Some && parsed is None ==> peer.version == 0,
        version is Some && parsed is Some ==> peer.version == parsed->0,
        ours <==> peer.version == 2,
        first == peer.addrs@[0],
{
}

/// The name of an instance is what stands before the service in the full name; a
/// full name of another service is taken as it is.
pub proof fn an_instance_is_what_stands_before_the_service(
    fullname: &str,
    name: Seq<char>,
    r: String,
)
    requires
        call_ensures(instance_of, (fullname,), r),
    ensures
        fullname@ == name + "._micbridge._udp.local."@ ==> r@ == name,
        r@ == fullname@ || fullname@ == r@ + "._micbridge._udp.local."@,
{
    let suffix = "._micbridge._udp.local."@;
    crate::net::discovery::an_instance_name_survives_the_suffix(name);
    if suffix.is_suffix_of(fullname@) {
        assert(fullname@ =~= r@ + suffix);
    }
}

/// A host name for the network keeps letters and digits in their places and has a
/// dash for everything else; where nothing but dashes would be left, it is a fixed
/// name. The record adds the domain.
pub proof fn a_host_name_keeps_letters_and_digits(host: &str, r: String, record: String)
    requires
        call_ensures(sanitize, (host,), r),
        call_ensures(host_record, (host,), record),
    ensures
        ({
            let kept = |c: char| 'a' <= c <= 'z' || 'A' <= c <= 'Z' || '0' <= c <= '9';
            &&& (exists|i: int| 0 <= i < host@.len() && kept(#[trigger] host@[i])) ==> r@.len()
                == host@.len() && forall|i: int|
                0 <= i < host@.len() ==> #[trigger] r@[i] == if kept(host@[i]) {
                    host@[i]
                } else {
                    '-'
                }
            &&& (forall|i: int| 0 <= i < host@.len() ==> !kept(#[trigger] host@[i])) ==> r@
                == "micbridge"@
        }),
        record@ == r@ + ".local."@,
{
    let kept = |c: char| 'a' <= c <= 'z' || 'A' <= c <= 'Z' || '0' <= c <= '9';
    let cleaned = crate::net::discovery::cleaned(host@);
    assert(cleaned.len() == host@.len());
    assert forall|i: int| 0 <= i < host@.len() implies #[trigger] cleaned[i] == if kept(host@[i]) {
        host@[i]
    } else {
        '-'
    } by {}
    if exists|i: int| 0 <= i < host@.len() && kept(#[trigger] host@[i]) {
        let i = choose|i: int| 0 <= i < host@.len() && kept(#[trigger] host@[i]);
        assert(cleaned[i] != '-');
    } else {
        assert forall|i: int| 0 <= i < host@.len() implies cleaned[i] == '-' by {
            assert(!kept(host@[i]));
        }
    }
}

/// Peers stand on a list under these names: each name has its peer, no name is left
/// out, and the names are in order, each once.
pub open spec fn lists(all: Map<Seq<char>, Peer>, peers: Seq<Peer>, names: Seq<Seq<char>>) -> bool {
    &&& names.len() == peers.len()
    &&& forall|i: int|
        0 <= i < names.len() ==> all.contains_key(#[trigger] names[i]) && all[names[i]] == peers[i]
    &&& forall|name: Seq<char>| #[trigger] all.contains_key(name) ==> names.contains(name)
    &&& forall|i: int, j: int|
        0 <= i < j < names.len() ==> crate::text::precedes(
            #[trigger] names[i],
            #[trigger] names[j],
        )
}

/// Whoever answered is on the list once, under the full name, with what they
/// announced last; whoever took it back is not. The list is in the order of the
/// full names.
pub proof fn whoever_answered_is_listed(found: Found, r: Vec<Peer>)
    requires
        call_ensures(Found::into_peers, (found,), r),
    ensures
        exists|names: Seq<Seq<char>>| #[trigger] lists(found@, r@, names),
{
    let listed = found.listed();
    let names = listed.map_values(|e: (Seq<char>, Peer)| e.0);
    assert forall|i: int| 0 <= i < names.len() implies found@.contains_key(#[trigger] names[i])
        && found@[names[i]] == r@[i] by {
        crate::names::lemma_held(listed, i);
    }
    assert forall|name: Seq<char>| #[trigger] found@.contains_key(name) implies names.contains(
        name,
    ) by {
        let i = choose|i: int| crate::names::stands_at(listed, name, i);
        assert(names[i] == name);
    }
    assert(lists(found@, r@, names));
}

/// An answer of a service puts it on the list, an empty one changes nothing, a
/// withdrawal takes that one off, and none of them touches another.
pub proof fn answers_concern_one_service(
    fullname: String,
    peer: Option<Peer>,
    gone: &str,
    other: Seq<char>,
)
    ensures
        forall|f: &mut Found| #[trigger]
            call_ensures(Found::on_resolved, (f, fullname, peer), ()) ==> {
                &&& peer matches Some(p) ==> final(f)@.contains_key(fullname@)
                    && final(f)@[fullname@] == p
                &&& peer is None || other != fullname@ ==> (final(f)@.contains_key(other) <==> (
                *f)@.contains_key(other)) && final(f)@[other] == (*f)@[other]
            },
        forall|f: &mut Found| #[trigger]
            call_ensures(Found::on_removed, (f, gone), ()) ==> {
                &&& !final(f)@.contains_key(gone@)
                &&& other != gone@ ==> (final(f)@.contains_key(other) <==> (*f)@.contains_key(
                    other,
                )) && ((*f)@.contains_key(other) ==> final(f)@[other] == (*f)@[other])
            },
        forall|f: Found| #[trigger] call_ensures(Found::new, (), f) ==> !f@.contains_key(other),
{
}

} // verus!
