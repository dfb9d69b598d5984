//! Stored state: the keypair and the peers trusted on first use.
//!
//! The functions here work on what the files hold. Reading and writing the
//! files is the caller's.

use crate::bytes;
use crate::crypto::Identity;
use crate::text;
use std::collections::BTreeMap;
use vstd::prelude::*;

verus! {

/// The map that pairs make, a later pair taking the place of an earlier one
/// with the same key.
pub open spec fn map_of(pairs: Seq<(String, String)>) -> Map<Seq<char>, Seq<char>>
    decreases pairs.len(),
{
    if pairs.len() == 0 {
        Map::empty()
    } else {
        map_of(pairs.drop_last()).insert(pairs.last().0@, pairs.last().1@)
    }
}

/// Whether the keys of pairs stand in ascending order, none twice.
pub open spec fn is_ascending(pairs: Seq<(String, String)>) -> bool {
    forall|i: int, j: int|
        0 <= i < j < pairs.len() ==> text::precedes(#[trigger] pairs[i].0@, #[trigger] pairs[j].0@)
}

/// The trusted peers: a fingerprint for each peer identifier, in ascending
/// order of the identifiers.
pub struct KnownPeers {
    entries: Vec<(String, String)>,
}

impl View for KnownPeers {
    type V = Map<Seq<char>, Seq<char>>;

    closed spec fn view(&self) -> Map<Seq<char>, Seq<char>> {
        map_of(self.entries@)
    }
}

/// The result of checking a peer's fingerprint against the trusted peers.
pub enum TrustDecision {
    /// This peer has never been seen under this identifier before.
    New,
    /// The fingerprint matches the stored one.
    Verified,
    /// The fingerprint changed since last time.
    Mismatch { expected: String },
}

/// What checking a peer's fingerprint can find, as a value.
pub enum Trust {
    New,
    Verified,
    Mismatch { expected: Seq<char> },
}

impl View for TrustDecision {
    type V = Trust;

    open spec fn view(&self) -> Trust {
        match self {
            TrustDecision::New => Trust::New,
            TrustDecision::Verified => Trust::Verified,
            TrustDecision::Mismatch { expected } => Trust::Mismatch { expected: expected@ },
        }
    }
}

/// How far a fingerprint is trusted for a peer identifier.
pub open spec fn trust(
    peers: Map<Seq<char>, Seq<char>>,
    peer_id: Seq<char>,
    fingerprint: Seq<char>,
) -> Trust {
    if !peers.contains_key(peer_id) {
        Trust::New
    } else if peers[peer_id] == fingerprint {
        Trust::Verified
    } else {
        Trust::Mismatch { expected: peers[peer_id] }
    }
}

/// In a map of ascending pairs, a key is there when a pair has it, and has the
/// value of that pair.
pub proof fn ascending_map(pairs: Seq<(String, String)>)
    requires
        is_ascending(pairs),
    ensures
        forall|k: Seq<char>| #[trigger]
            map_of(pairs).contains_key(k) <==> exists|i: int|
                0 <= i < pairs.len() && #[trigger] pairs[i].0@ == k,
        forall|i: int|
            0 <= i < pairs.len() ==> map_of(pairs)[#[trigger] pairs[i].0@] == pairs[i].1@,
    decreases pairs.len(),
{
    if pairs.len() > 0 {
        let rest = pairs.drop_last();
        let n = pairs.len() - 1;
        assert forall|i: int, j: int| 0 <= i < j < rest.len() implies text::precedes(
            #[trigger] rest[i].0@,
            #[trigger] rest[j].0@,
        ) by {
            assert(text::precedes(pairs[i].0@, pairs[j].0@));
        }
        ascending_map(rest);
        assert forall|k: Seq<char>| #[trigger] map_of(pairs).contains_key(k) implies exists|i: int|
            0 <= i < pairs.len() && #[trigger] pairs[i].0@ == k by {
            if k == pairs[n].0@ {
            } else {
                assert(map_of(rest).contains_key(k));
                let i = choose|i: int| 0 <= i < rest.len() && #[trigger] rest[i].0@ == k;
                assert(pairs[i].0@ == k);
            }
        }
        assert forall|i: int| 0 <= i < pairs.len() implies map_of(pairs).contains_key(
            #[trigger] pairs[i].0@,
        ) && map_of(pairs)[pairs[i].0@] == pairs[i].1@ by {
            if i < n {
                assert(rest[i] == pairs[i]);
                assert(text::precedes(pairs[i].0@, pairs[n].0@));
                text::precedes_is_irreflexive(pairs[i].0@);
                assert(map_of(rest).contains_key(rest[i].0@));
            }
        }
    }
}

impl KnownPeers {
    /// The identifiers stand in ascending order, none twice.
    pub closed spec fn wf(self) -> bool {
        is_ascending(self.entries@)
    }

    /// No peers.
    pub fn new() -> (res: Self)
        ensures
            res.wf(),
            res@ == Map::<Seq<char>, Seq<char>>::empty(),
    {
        KnownPeers { entries: Vec::new() }
    }

    /// The place of the first identifier that does not precede `peer_id`.
    fn find(&self, peer_id: &str) -> (res: usize)
        requires
            self.wf(),
        ensures
            res <= self.entries@.len(),
            forall|i: int|
                0 <= i < res ==> text::precedes(#[trigger] self.entries@[i].0@, peer_id@),
            forall|i: int|
                res <= i < self.entries@.len() ==> !text::precedes(
                    #[trigger] self.entries@[i].0@,
                    peer_id@,
                ),
            forall|i: int|
                res < i < self.entries@.len() ==> text::precedes(
                    peer_id@,
                    #[trigger] self.entries@[i].0@,
                ),
            res < self.entries@.len() && self.entries@[res as int].0@ != peer_id@
                ==> text::precedes(peer_id@, self.entries@[res as int].0@),
            self@.contains_key(peer_id@) <==> res < self.entries@.len()
                && self.entries@[res as int].0@ == peer_id@,
            self@.contains_key(peer_id@) ==> self@[peer_id@] == self.entries@[res as int].1@,
    {
        let mut at: usize = 0;
        while at < self.entries.len() && text::is_before(self.entries[at].0.as_str(), peer_id)
            invariant
                at <= self.entries@.len(),
                forall|i: int|
                    0 <= i < at ==> text::precedes(#[trigger] self.entries@[i].0@, peer_id@),
            decreases self.entries@.len() - at,
        {
            at = at + 1;
        }
        proof {
            let e = self.entries@;
            ascending_map(e);
            if at < e.len() {
                if e[at as int].0@ != peer_id@ {
                    text::precedes_is_total(e[at as int].0@, peer_id@);
                }
                assert forall|i: int| at < i < e.len() implies text::precedes(
                    peer_id@,
                    #[trigger] e[i].0@,
                ) by {
                    assert(text::precedes(e[at as int].0@, e[i].0@));
                    if e[at as int].0@ != peer_id@ {
                        text::precedes_is_transitive(peer_id@, e[at as int].0@, e[i].0@);
                    }
                }
                assert forall|i: int| at <= i < e.len() implies !text::precedes(
                    #[trigger] e[i].0@,
                    peer_id@,
                ) by {
                    if text::precedes(e[i].0@, peer_id@) && i > at {
                        assert(text::precedes(peer_id@, e[i].0@));
                        text::precedes_is_transitive(e[i].0@, peer_id@, e[i].0@);
                        text::precedes_is_irreflexive(e[i].0@);
                    }
                }
            }
            if self@.contains_key(peer_id@) {
                let i = choose|i: int| 0 <= i < e.len() && #[trigger] e[i].0@ == peer_id@;
                text::precedes_is_irreflexive(peer_id@);
            }
        }
        at
    }
}

/// Putting a pair between the keys below and the keys above it keeps the order
/// and inserts the pair in the map.
proof fn insert_keeps_order(pairs: Seq<(String, String)>, at: int, pair: (String, String))
    requires
        is_ascending(pairs),
        0 <= at <= pairs.len(),
        forall|i: int| 0 <= i < at ==> text::precedes(#[trigger] pairs[i].0@, pair.0@),
        forall|i: int| at <= i < pairs.len() ==> text::precedes(pair.0@, #[trigger] pairs[i].0@),
    ensures
        is_ascending(pairs.insert(at, pair)),
        map_of(pairs.insert(at, pair)) == map_of(pairs).insert(pair.0@, pair.1@),
{
    let after = pairs.insert(at, pair);
    assert forall|i: int, j: int| 0 <= i < j < after.len() implies text::precedes(
        #[trigger] after[i].0@,
        #[trigger] after[j].0@,
    ) by {
        let i0 = if i < at { i } else { i - 1 };
        let j0 = if j < at { j } else { j - 1 };
        if i != at {
            assert(after[i] == pairs[i0]);
        }
        if j != at {
            assert(after[j] == pairs[j0]);
        }
        if i != at && j != at {
            assert(text::precedes(pairs[i0].0@, pairs[j0].0@));
        }
    }
    ascending_map(pairs);
    ascending_map(after);
    let want = map_of(pairs).insert(pair.0@, pair.1@);
    assert forall|k: Seq<char>| #[trigger] map_of(after).contains_key(k) <==> want.contains_key(
        k,
    ) by {
        if map_of(after).contains_key(k) {
            let i = choose|i: int| 0 <= i < after.len() && #[trigger] after[i].0@ == k;
            if i < at {
                assert(pairs[i].0@ == k);
            } else if i > at {
                assert(pairs[i - 1].0@ == k);
            }
        }
        if want.contains_key(k) {
            if k == pair.0@ {
                assert(after[at].0@ == k);
            } else {
                let i = choose|i: int| 0 <= i < pairs.len() && #[trigger] pairs[i].0@ == k;
                assert(after[if i < at { i } else { i + 1 }].0@ == k);
            }
        }
    }
    assert forall|k: Seq<char>| #[trigger] map_of(after).contains_key(k) implies map_of(after)[k]
        == want[k] by {
        let i = choose|i: int| 0 <= i < after.len() && #[trigger] after[i].0@ == k;
        if i < at {
            assert(pairs[i] == after[i]);
            assert(text::precedes(pairs[i].0@, pair.0@));
            text::precedes_is_irreflexive(pair.0@);
        } else if i > at {
            assert(pairs[i - 1] == after[i]);
            assert(text::precedes(pair.0@, pairs[i - 1].0@));
            text::precedes_is_irreflexive(pair.0@);
        }
    }
    assert(map_of(after) =~= want);
}

/// Taking a pair out keeps the order and removes the key from the map.
proof fn remove_keeps_order(pairs: Seq<(String, String)>, at: int)
    requires
        is_ascending(pairs),
        0 <= at < pairs.len(),
    ensures
        is_ascending(pairs.remove(at)),
        map_of(pairs.remove(at)) == map_of(pairs).remove(pairs[at].0@),
{
    let after = pairs.remove(at);
    assert forall|i: int, j: int| 0 <= i < j < after.len() implies text::precedes(
        #[trigger] after[i].0@,
        #[trigger] after[j].0@,
    ) by {
        let i0 = if i < at { i } else { i + 1 };
        let j0 = if j < at { j } else { j + 1 };
        assert(text::precedes(pairs[i0].0@, pairs[j0].0@));
    }
    ascending_map(pairs);
    ascending_map(after);
    let want = map_of(pairs).remove(pairs[at].0@);
    assert forall|i: int| 0 <= i < pairs.len() && i != at implies #[trigger] pairs[i].0@
        != pairs[at].0@ by {
        text::precedes_is_irreflexive(pairs[at].0@);
        if i < at {
            assert(text::precedes(pairs[i].0@, pairs[at].0@));
        } else {
            assert(text::precedes(pairs[at].0@, pairs[i].0@));
        }
    }
    assert forall|k: Seq<char>| #[trigger] map_of(after).contains_key(k) <==> want.contains_key(
        k,
    ) by {
        if map_of(after).contains_key(k) {
            let i = choose|i: int| 0 <= i < after.len() && #[trigger] after[i].0@ == k;
            assert(pairs[if i < at { i } else { i + 1 }].0@ == k);
        }
        if want.contains_key(k) {
            let i = choose|i: int| 0 <= i < pairs.len() && #[trigger] pairs[i].0@ == k;
            assert(after[if i < at { i } else { i - 1 }].0@ == k);
        }
    }
    assert forall|k: Seq<char>| #[trigger] map_of(after).contains_key(k) implies map_of(after)[k]
        == want[k] by {
        let i = choose|i: int| 0 <= i < after.len() && #[trigger] after[i].0@ == k;
        assert(pairs[if i < at { i } else { i + 1 }] == after[i]);
    }
    assert(map_of(after) =~= want);
}

/// Looks up a peer identifier and compares its fingerprint.
pub fn check_peer(peers: &KnownPeers, peer_id: &str, fingerprint: &str) -> (res: TrustDecision)
    requires
        peers.wf(),
    ensures
        res@ == trust(peers@, peer_id@, fingerprint@),
{
    let at = peers.find(peer_id);
    if at < peers.entries.len() && text::same(peers.entries[at].0.as_str(), peer_id) {
        if text::same(peers.entries[at].1.as_str(), fingerprint) {
            TrustDecision::Verified
        } else {
            TrustDecision::Mismatch { expected: peers.entries[at].1.clone() }
        }
    } else {
        TrustDecision::New
    }
}

/// Stores or overwrites a peer's trusted fingerprint.
pub fn pin_peer(peers: &mut KnownPeers, peer_id: &str, fingerprint: &str)
    requires
        old(peers).wf(),
    ensures
        final(peers).wf(),
        final(peers)@ == old(peers)@.insert(peer_id@, fingerprint@),
{
    remove_peer(peers, peer_id);
    let at = peers.find(peer_id);
    let ghost before = peers.entries@;
    let pair = (peer_id.to_string(), fingerprint.to_string());
    proof {
        insert_keeps_order(before, at as int, pair);
        assert(old(peers)@.remove(peer_id@).insert(peer_id@, fingerprint@) =~= old(peers)@.insert(
            peer_id@,
            fingerprint@,
        ));
    }
    peers.entries.insert(at, pair);
}

/// Removes a trusted peer record, if there is one.
pub fn remove_peer(peers: &mut KnownPeers, peer_id: &str)
    requires
        old(peers).wf(),
    ensures
        final(peers).wf(),
        final(peers)@ == old(peers)@.remove(peer_id@),
{
    let at = peers.find(peer_id);
    if at < peers.entries.len() && text::same(peers.entries[at].0.as_str(), peer_id) {
        proof {
            remove_keeps_order(peers.entries@, at as int);
        }
        peers.entries.remove(at);
    } else {
        assert(peers@.remove(peer_id@) =~= peers@);
    }
}

/// Lists all trusted peers as pairs of identifier and fingerprint, sorted by
/// identifier.
pub fn list_peers(peers: &KnownPeers) -> (res: Vec<(String, String)>)
    requires
        peers.wf(),
    ensures
        is_ascending(res@),
        map_of(res@) == peers@,
{
    let mut res: Vec<(String, String)> = Vec::new();
    let mut i: usize = 0;
    while i < peers.entries.len()
        invariant
            i == res@.len(),
            i <= peers.entries@.len(),
            res@ == peers.entries@.take(i as int),
        decreases peers.entries@.len() - i,
    {
        res.push((peers.entries[i].0.clone(), peers.entries[i].1.clone()));
        assert(res@ =~= peers.entries@.take(i + 1));
        i = i + 1;
    }
    assert(res@ =~= peers.entries@);
    res
}

/// What a known peers file is found to be.
pub enum PeersFile {
    /// It cannot be read.
    Unreadable,
    /// There is none.
    Missing,
    /// It has this text.
    Found(String),
}

impl PeersFile {
    /// The peers that the file holds, and none where it cannot be read or is
    /// malformed.
    pub open spec fn peers(self) -> Map<Seq<char>, Seq<char>> {
        let stored = match self {
            PeersFile::Unreadable => None,
            PeersFile::Missing => stored_peers(None),
            PeersFile::Found(text) => stored_peers(Some(text@)),
        };
        match stored {
            Some(peers) => peers,
            None => Map::empty(),
        }
    }
}

/// Lists the trusted peers for the user to look at, sorted by identifier. A
/// file that cannot be read or is malformed shows as no peers.
pub fn load_peers(file: &PeersFile) -> (res: Vec<(String, String)>)
    ensures
        is_ascending(res@),
        map_of(res@) == file.peers(),
{
    let loaded = match file {
        PeersFile::Unreadable => Err(StateError::MalformedPeers),
        PeersFile::Missing => load_known_peers(None),
        PeersFile::Found(text) => load_known_peers(Some(text.as_str())),
    };
    match loaded {
        Ok(peers) => list_peers(&peers),
        Err(_) => Vec::new(),
    }
}

/// What can be wrong with a stored file.
#[derive(Clone, Copy, Debug, PartialEq, Eq, Structural)]
pub enum StateError {
    /// The known peers file is not a JSON object of strings.
    MalformedPeers,
    /// The known peers could not be written as JSON.
    UnwritablePeers,
    /// The stored secret is not hexadecimal.
    SecretEncoding,
    /// The stored secret has the wrong length.
    SecretLength,
}

impl StateError {
    /// The error in words.
    pub open spec fn text(self) -> Seq<char> {
        match self {
            StateError::MalformedPeers => "failed to parse known peers file"@,
            StateError::UnwritablePeers => "failed to serialize known peers"@,
            StateError::SecretEncoding => "invalid secret key encoding"@,
            StateError::SecretLength => "secret key must be 32 bytes"@,
        }
    }

    /// The error in words.
    pub fn message(&self) -> (res: String)
        ensures
            res@ == self.text(),
    {
        match self {
            StateError::MalformedPeers => "failed to parse known peers file".to_string(),
            StateError::UnwritablePeers => "failed to serialize known peers".to_string(),
            StateError::SecretEncoding => "invalid secret key encoding".to_string(),
            StateError::SecretLength => "secret key must be 32 bytes".to_string(),
        }
    }
}

/// The map that a text is the JSON of, where it is a JSON object whose values
/// are strings.
pub uninterp spec fn json_map(text: Seq<char>) -> Option<Map<Seq<char>, Seq<char>>>;

/// The indented JSON of a map of strings.
pub uninterp spec fn json_text(map: Map<Seq<char>, Seq<char>>) -> Seq<char>;

/// `serde_json::from_str` for a map of strings to strings: its pairs. The map
/// is named.
#[verifier::external_body]
fn parse_json_map(text: &str) -> (res: Option<Vec<(String, String)>>)
    ensures
        res is Some <==> json_map(text@) is Some,
        res matches Some(pairs) ==> json_map(text@) == Some(map_of(pairs@)),
{
    match serde_json::from_str::<BTreeMap<String, String>>(text) {
        Ok(map) => Some(map.into_iter().collect()),
        Err(_) => None,
    }
}

/// `serde_json::to_string_pretty` for a map of strings to strings. It does not
/// fail for such a map. The text is named; it starts with an opening brace, and
/// reads as the map again.
#[verifier::external_body]
fn write_json_map(pairs: &Vec<(String, String)>) -> (res: Option<String>)
    ensures
        res is Some,
        res matches Some(text) ==> {
            &&& text@ == json_text(map_of(pairs@))
            &&& text@.len() > 0
            &&& text@[0] == '{'
            &&& json_map(text@) == Some(map_of(pairs@))
        },
{
    let map: BTreeMap<String, String> = pairs.iter().cloned().collect();
    match serde_json::to_string_pretty(&map) {
        Ok(text) => Some(text),
        Err(_) => None,
    }
}

/// The peers that a known peers file holds: none where there is no file or a
/// blank one, and where the file is not a JSON object of strings it is
/// malformed.
pub open spec fn stored_peers(file: Option<Seq<char>>) -> Option<Map<Seq<char>, Seq<char>>> {
    match file {
        None => Some(Map::empty()),
        Some(text) => if text::is_blank(text) {
            Some(Map::empty())
        } else {
            json_map(text)
        },
    }
}

/// Reads the known peers from the text of their file, if there is one.
pub fn load_known_peers(file: Option<&str>) -> (res: Result<KnownPeers, StateError>)
    ensures
        ({
            let stored = stored_peers(
                match file {
                    Some(text) => Some(text@),
                    None => None,
                },
            );
            match res {
                Ok(peers) => peers.wf() && stored == Some(peers@),
                Err(e) => stored is None && e == StateError::MalformedPeers,
            }
        }),
{
    let text: &str = match file {
        Some(text) => text,
        None => return Ok(KnownPeers::new()),
    };
    if text::blank(text) {
        return Ok(KnownPeers::new());
    }
    let pairs: Vec<(String, String)> = match parse_json_map(text) {
        Some(pairs) => pairs,
        None => return Err(StateError::MalformedPeers),
    };
    let mut peers = KnownPeers::new();
    let mut i: usize = 0;
    while i < pairs.len()
        invariant
            i <= pairs@.len(),
            peers.wf(),
            peers@ == map_of(pairs@.take(i as int)),
        decreases pairs@.len() - i,
    {
        assert(pairs@.take(i + 1).drop_last() =~= pairs@.take(i as int));
        pin_peer(&mut peers, pairs[i].0.as_str(), pairs[i].1.as_str());
        i = i + 1;
    }
    assert(pairs@.take(pairs@.len() as int) =~= pairs@);
    Ok(peers)
}

/// Writes the known peers as the text of their file. Reading the text gives
/// the same peers again.
pub fn save_known_peers(peers: &KnownPeers) -> (res: Result<String, StateError>)
    ensures
        res is Ok,
        res matches Ok(text) ==> {
            &&& text@ == json_text(peers@)
            &&& stored_peers(Some(text@)) == Some(peers@)
        },
{
    match write_json_map(&peers.entries) {
        Some(text) => {
            assert(!text::is_white(text@[0]));
            Ok(text)
        },
        None => Err(StateError::UnwritablePeers),
    }
}

/// The secret key that a stored text spells in hexadecimal.
pub open spec fn stored_secret(text: Seq<char>) -> Result<Seq<u8>, StateError> {
    if !text::is_hex(text) {
        Err(StateError::SecretEncoding)
    } else if text.len() != 64 {
        Err(StateError::SecretLength)
    } else {
        Ok(text::bytes_of_hex(text))
    }
}

/// An identity, and the text to store for it if it is not stored yet.
pub struct LoadedKeypair {
    pub identity: Identity,
    pub to_store: Option<String>,
}

/// The text to store for an identity: its secret key in hexadecimal.
pub fn keypair_text(identity: &Identity) -> (res: String)
    ensures
        res@ == text::hex(identity.secret@),
        stored_secret(res@) == Ok::<Seq<u8>, StateError>(identity.secret@),
{
    proof {
        stored_keypair_reads_back(identity.secret@);
    }
    text::hex_encode(identity.secret.as_slice())
}

/// Takes the identity from the stored text, or generates one, to be stored, on
/// first run.
pub fn load_or_create_keypair(stored: Option<&str>) -> (res: Result<LoadedKeypair, StateError>)
    ensures
        match stored {
            Some(text) => match res {
                Ok(loaded) => {
                    &&& loaded.identity.wf()
                    &&& stored_secret(text@) == Ok::<Seq<u8>, StateError>(
                        loaded.identity.secret@,
                    )
                    &&& loaded.to_store is None
                },
                Err(e) => stored_secret(text@) == Err::<Seq<u8>, StateError>(e),
            },
            None => res matches Ok(loaded) && loaded.identity.wf() && (loaded.to_store matches Some(
                text,
            ) && text@ == text::hex(loaded.identity.secret@)),
        },
{
    match stored {
        Some(text) => match text::hex_decode(text) {
            Some(secret) => if secret.len() == 32 {
                assert(secret@.subrange(0, 32) =~= secret@);
                let identity = Identity::from_secret_bytes(bytes::array_32(secret.as_slice(), 0));
                Ok(LoadedKeypair { identity, to_store: None })
            } else {
                Err(StateError::SecretLength)
            },
            None => Err(StateError::SecretEncoding),
        },
        None => Ok(generate_and_save()),
    }
}

/// Generates a fresh keypair, to be stored in place of any other.
pub fn generate_and_save() -> (res: LoadedKeypair)
    ensures
        res.identity.wf(),
        res.to_store matches Some(text) && text@ == text::hex(res.identity.secret@),
{
    let identity = Identity::generate();
    let text = keypair_text(&identity);
    LoadedKeypair { identity, to_store: Some(text) }
}

/// A stored secret key is read back as it was.
pub proof fn stored_keypair_reads_back(secret: Seq<u8>)
    requires
        secret.len() == 32,
    ensures
        stored_secret(text::hex(secret)) == Ok::<Seq<u8>, StateError>(secret),
{
    text::hex_reads_back(secret);
}

/// A pinned fingerprint verifies from then on, and any other fingerprint of
/// the same peer is flagged with the pinned one.
pub proof fn pinned_fingerprint_is_checked(
    peers: Map<Seq<char>, Seq<char>>,
    peer_id: Seq<char>,
    pinned: Seq<char>,
    fingerprint: Seq<char>,
)
    ensures
        trust(peers.insert(peer_id, pinned), peer_id, fingerprint) == (if fingerprint == pinned {
            Trust::Verified
        } else {
            Trust::Mismatch { expected: pinned }
        }),
{
}

/// A removed peer is new again, whatever its fingerprint.
pub proof fn removed_peer_is_new(
    peers: Map<Seq<char>, Seq<char>>,
    peer_id: Seq<char>,
    fingerprint: Seq<char>,
)
    ensures
        trust(peers.remove(peer_id), peer_id, fingerprint) == Trust::New,
{
}

/// Pinning or removing one peer changes nothing for another.
pub proof fn peers_are_independent(
    peers: Map<Seq<char>, Seq<char>>,
    peer_id: Seq<char>,
    pinned: Seq<char>,
    other: Seq<char>,
    fingerprint: Seq<char>,
)
    requires
        other != peer_id,
    ensures
        trust(peers.insert(peer_id, pinned), other, fingerprint) == trust(
            peers,
            other,
            fingerprint,
        ),
        trust(peers.remove(peer_id), other, fingerprint) == trust(peers, other, fingerprint),
{
}

} // verus!
