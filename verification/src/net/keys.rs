//! Remembered keys of pairs.
//!
//! Pairing happens once. It ends in a shared secret that both sides keep under
//! the name of the other machine; from the next start on they connect without
//! asking for anything.
//!
//! The name is only a label to look things up by. The key authenticates: whoever
//! does not have it does not get through the handshake, whatever machine they
//! claim to be.
use vstd::prelude::*;

use crate::names::{Entry, NameMap};
use crate::net::secure::{Key, KEY_LEN};
use crate::text::{to_lowercase, trim};

verus! {

/// The digit of a number below sixteen, in lower case.
pub open spec fn hex_digit(d: u8) -> char {
    if d < 10 {
        ('0' as u32 + d) as char
    } else {
        ('a' as u32 + d - 10) as char
    }
}

/// The number that a hexadecimal digit of either case stands for.
pub open spec fn hex_value(c: char) -> Option<u8> {
    if '0' <= c <= '9' {
        Some((c as u32 - '0' as u32) as u8)
    } else if 'a' <= c <= 'f' {
        Some((c as u32 - 'a' as u32 + 10) as u8)
    } else if 'A' <= c <= 'F' {
        Some((c as u32 - 'A' as u32 + 10) as u8)
    } else {
        None
    }
}

/// Bytes in hexadecimal, two digits each.
pub open spec fn hex_of(bytes: Seq<u8>) -> Seq<char> {
    Seq::new(
        bytes.len() * 2,
        |i: int|
            if i % 2 == 0 {
                hex_digit((bytes[i / 2] / 16) as u8)
            } else {
                hex_digit((bytes[i / 2] % 16) as u8)
            },
    )
}

/// The bytes that a hexadecimal text stands for, if it is one.
pub open spec fn unhex(s: Seq<char>) -> Option<Seq<u8>> {
    if s.len() % 2 == 0 && forall|i: int| 0 <= i < s.len() ==> hex_value(#[trigger] s[i]) is Some {
        Some(
            Seq::new(
                s.len() / 2,
                |i: int| (hex_value(s[2 * i])->0 * 16 + hex_value(s[2 * i + 1])->0) as u8,
            ),
        )
    } else {
        None
    }
}

/// Calls `hex::encode`: two lower-case digits for every byte, the upper half
/// first.
#[verifier::external_body]
fn hex_encode(bytes: &[u8]) -> (r: String)
    ensures
        r@ == hex_of(bytes@),
{
    hex::encode(bytes)
}

/// Calls `hex::decode`: the bytes of an even number of digits of either case; it
/// fails on anything else.
#[verifier::external_body]
fn hex_decode(text: &str) -> (r: Option<Vec<u8>>)
    ensures
        r is Some <==> unhex(text@) is Some,
        r matches Some(bytes) ==> Some(bytes@) == unhex(text@),
{
    hex::decode(text).ok()
}

/// Decoding undoes encoding.
pub proof fn hex_reads_back(bytes: Seq<u8>)
    ensures
        unhex(hex_of(bytes)) == Some(bytes),
{
    let s = hex_of(bytes);
    assert forall|i: int| 0 <= i < s.len() implies hex_value(#[trigger] s[i]) is Some by {
        assert(bytes[i / 2] / 16 < 16 && bytes[i / 2] % 16 < 16);
    }
    let back = unhex(s)->0;
    assert forall|i: int| 0 <= i < bytes.len() implies back[i] == bytes[i] by {
        let b = bytes[i];
        assert((2 * i) % 2 == 0 && (2 * i) / 2 == i && (2 * i + 1) % 2 == 1 && (2 * i + 1) / 2 == i);
        assert(hex_value(s[2 * i]) == Some((b / 16) as u8));
        assert(hex_value(s[2 * i + 1]) == Some((b % 16) as u8));
    }
    assert(back =~= bytes);
}

/// The label under which a machine's key is kept. Names of machines get written
/// now this way and now that; the key has to be found all the same.
pub open spec fn label(peer: Seq<char>) -> Seq<char> {
    crate::text::lowercase(crate::text::trimmed(peer))
}

fn normalize(peer: &str) -> (r: String)
    ensures
        r@ == label(peer@),
{
    let bare = trim(peer);
    to_lowercase(bare.as_str())
}

/// A map to texts, by the characters of the texts.
pub open spec fn texts(m: Map<Seq<char>, String>) -> Map<Seq<char>, Seq<char>> {
    m.map_values(|s: String| s@)
}

/// The keys of a user, as kept in a file of their configuration directory.
pub struct KeyStore {
    path: String,
    /// From the labels of machines to keys in hexadecimal.
    peers: NameMap<String>,
}

impl View for KeyStore {
    /// From the labels of machines to keys in hexadecimal.
    type V = Map<Seq<char>, Seq<char>>;

    closed spec fn view(&self) -> Map<Seq<char>, Seq<char>> {
        texts(self.peers@)
    }
}

/// The key that a store's content gives for a machine.
pub open spec fn found(content: Map<Seq<char>, Seq<char>>, peer: Seq<char>) -> Option<Seq<u8>> {
    if content.contains_key(label(peer)) {
        match unhex(content[label(peer)]) {
            Some(bytes) if bytes.len() == KEY_LEN => Some(bytes),
            _ => None,
        }
    } else {
        None
    }
}

/// Where the file with the keys lies.
#[derive(Debug)]
pub enum StorePlace {
    /// At this path, which the user gave.
    At(String),
    /// In `micbridge/peers.toml` of this directory.
    UnderConfig(String),
    /// The directory of settings is not known.
    Unknown,
}

/// Where the file with the keys lies, by `$MICBRIDGE_CONFIG`, and where that is
/// not set, by the user's directory of settings.
pub fn default_path(custom: Option<String>, config: Option<String>) -> (r: StorePlace)
    ensures
        r == match custom {
            Some(path) => StorePlace::At(path),
            None => match config {
                Some(dir) => StorePlace::UnderConfig(dir),
                None => StorePlace::Unknown,
            },
        },
{
    match custom {
        Some(path) => StorePlace::At(path),
        None => match config {
            Some(dir) => StorePlace::UnderConfig(dir),
            None => StorePlace::Unknown,
        },
    }
}

impl KeyStore {
    /// The entries stand in order.
    pub closed spec fn wf(&self) -> bool {
        self.peers.wf()
    }

    /// Where the file is.
    pub closed spec fn place(&self) -> Seq<char> {
        self.path@
    }

    /// The entries, in the order of their names.
    pub closed spec fn listed(&self) -> Seq<(Seq<char>, String)> {
        self.peers.listed()
    }

    /// An empty store that belongs to a file.
    pub fn new(path: String) -> (r: Self)
        ensures
            r.wf(),
            r.place() == path@,
            r@ == Map::<Seq<char>, Seq<char>>::empty(),
    {
        let r = KeyStore { path, peers: NameMap::new() };
        assert(r@ =~= Map::empty());
        r
    }

    /// A store that belongs to a file and holds what was read from it. Where a
    /// name occurs twice, the later entry counts.
    pub fn open(path: String, read: Vec<Entry<String>>) -> (r: Self)
        ensures
            r.wf(),
            r.place() == path@,
            r@ == texts(crate::names::taken_in(crate::names::pairs(read@))),
    {
        let mut store = KeyStore::new(path);
        let ghost all = crate::names::pairs(read@);
        let mut i: usize = 0;
        assert(all.take(0) =~= Seq::empty());
        assert(texts(Map::empty()) =~= Map::empty());
        while i < read.len()
            invariant
                i <= read@.len(),
                all == crate::names::pairs(read@),
                store.wf(),
                store.place() == path@,
                store@ == texts(crate::names::taken_in(all.take(i as int))),
            decreases read@.len() - i,
        {
            let ghost before = store@;
            store.put(read[i].name.clone(), read[i].value.clone());
            proof {
                let next = all.take(i + 1);
                assert(next.drop_last() =~= all.take(i as int));
                assert(next.last() == (read@[i as int].name@, read@[i as int].value));
                assert(texts(crate::names::taken_in(next)) =~= before.insert(
                    read@[i as int].name@,
                    read@[i as int].value@,
                ));
            }
            i += 1;
        }
        assert(all.take(i as int) =~= all);
        store
    }

    pub fn path(&self) -> (r: &str)
        ensures
            r@ == self.place(),
    {
        self.path.as_str()
    }

    /// Puts a key in hexadecimal under a label as it stands.
    fn put(&mut self, name: String, key: String)
        requires
            old(self).wf(),
        ensures
            final(self).wf(),
            final(self).place() == old(self).place(),
            final(self)@ == old(self)@.insert(name@, key@),
    {
        let ghost (n, k) = (name@, key@);
        self.peers.insert(name, key);
        assert(self@ =~= old(self)@.insert(n, k));
    }

    /// The key of a machine, if there is a well-formed one under its name.
    pub fn get(&self, peer: &str) -> (r: Option<Key>)
        requires
            self.wf(),
        ensures
            r is Some <==> found(self@, peer@) is Some,
            r matches Some(key) ==> found(self@, peer@) == Some(key@),
    {
        let name = normalize(peer);
        match self.peers.get(name.as_str()) {
            Some(text) => match hex_decode(text.as_str()) {
                Some(bytes) => key_of(&bytes),
                None => None,
            },
            None => None,
        }
    }

    /// The labels of all machines, in order.
    pub fn peers(&self) -> (r: Vec<&str>)
        requires
            self.wf(),
        ensures
            r@.len() == self.listed().len(),
            forall|i: int| 0 <= i < r@.len() ==> (#[trigger] r@[i])@ == self.listed()[i].0,
            crate::names::in_order(self.listed()),
            texts(crate::names::held(self.listed())) == self@,
    {
        self.peers.names()
    }

    /// The entries to write to the file, in the order of their names.
    pub fn entries(&self) -> (r: &Vec<Entry<String>>)
        requires
            self.wf(),
        ensures
            crate::names::pairs(r@) == self.listed(),
            crate::names::in_order(self.listed()),
            texts(crate::names::held(self.listed())) == self@,
    {
        self.peers.entries()
    }

    /// Keeps a machine's key; one that was there before is replaced.
    pub fn set(&mut self, peer: &str, key: &Key)
        requires
            old(self).wf(),
        ensures
            final(self).wf(),
            final(self).place() == old(self).place(),
            final(self)@ == old(self)@.insert(label(peer@), hex_of(key@)),
    {
        let name = normalize(peer);
        let text = hex_encode(key.as_slice());
        self.put(name, text);
    }

    /// Drops a machine's key. Says whether there was anything to forget.
    pub fn forget(&mut self, peer: &str) -> (removed: bool)
        requires
            old(self).wf(),
        ensures
            final(self).wf(),
            final(self).place() == old(self).place(),
            removed == old(self)@.contains_key(label(peer@)),
            final(self)@ == old(self)@.remove(label(peer@)),
    {
        let name = normalize(peer);
        let removed: bool = self.peers.remove(name.as_str());
        assert(self@ =~= old(self)@.remove(label(peer@)));
        removed
    }
}

/// A key from bytes, if there are as many as a key has.
fn key_of(bytes: &Vec<u8>) -> (r: Option<Key>)
    ensures
        r is Some <==> bytes@.len() == KEY_LEN,
        r matches Some(key) ==> key@ == bytes@,
{
    if bytes.len() != KEY_LEN {
        return None;
    }
    let mut key: Key = [0u8; KEY_LEN];
    let mut i: usize = 0;
    while i < KEY_LEN
        invariant
            i <= KEY_LEN == bytes@.len(),
            key@.len() == KEY_LEN,
            forall|j: int| 0 <= j < i ==> key@[j] == bytes@[j],
        decreases KEY_LEN - i,
    {
        key[i] = bytes[i];
        i += 1;
    }
    assert(key@ =~= bytes@);
    Some(key)
}

/// A key that was kept under a name is found again under every spelling of it,
/// and no other machine's key changes.
pub proof fn a_kept_key_is_found_again(
    content: Map<Seq<char>, Seq<char>>,
    peer: Seq<char>,
    key: Seq<u8>,
    asked: Seq<char>,
)
    requires
        key.len() == KEY_LEN,
    ensures
        ({
            let after = content.insert(label(peer), hex_of(key));
            &&& label(asked) == label(peer) ==> found(after, asked) == Some(key)
            &&& label(asked) != label(peer) ==> found(after, asked) == found(content, asked)
        }),
{
    hex_reads_back(key);
}

/// A key that was forgotten is not found any more, and no other machine's key
/// changes.
pub proof fn a_forgotten_key_is_gone(
    content: Map<Seq<char>, Seq<char>>,
    peer: Seq<char>,
    asked: Seq<char>,
)
    ensures
        ({
            let after = content.remove(label(peer));
            &&& label(asked) == label(peer) ==> found(after, asked) is None
            &&& label(asked) != label(peer) ==> found(after, asked) == found(content, asked)
        }),
{
}

/// A stored key survives a reopen: a store that takes in the entries that
/// another one lists holds the same.
pub proof fn a_store_survives_a_reopen(listed: Seq<(Seq<char>, String)>)
    requires
        crate::names::in_order(listed),
    ensures
        texts(crate::names::taken_in(listed)) == texts(crate::names::held(listed)),
{
    crate::names::lemma_taken_in(listed);
}

} // verus!
