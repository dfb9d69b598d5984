//! What holds of the stored files, and of reaching a host.

use crate::connect;
use crate::laws::texts;
use crate::state::{self, PeersFile, StateError, Trust, TrustDecision};
use crate::text;
use vstd::prelude::*;

verus! {

/// A peer is new where it is not stored, known where the very fingerprint is
/// stored for it, and has changed where another one is.
pub proof fn trust_is_what_is_stored(
    peers: Map<Seq<char>, Seq<char>>,
    id: Seq<char>,
    fp: Seq<char>,
    decision: TrustDecision,
)
    requires
        decision@ == state::trust(peers, id, fp),
    ensures
        match decision {
            TrustDecision::New => !peers.contains_key(id),
            TrustDecision::Verified => peers.contains_key(id) && peers[id] == fp,
            TrustDecision::Mismatch { expected } => peers.contains_key(id) && peers[id] != fp
                && expected@ == peers[id],
        },
{
}

/// The map of pairs has each pair in it, the later one where two have one key,
/// and no other key.
pub proof fn pairs_make_a_map(pairs: Seq<(String, String)>, pair: (String, String))
    ensures
        state::map_of(Seq::empty()) == Map::<Seq<char>, Seq<char>>::empty(),
        state::map_of(pairs.push(pair)) == state::map_of(pairs).insert(pair.0@, pair.1@),
{
    assert(pairs.push(pair).drop_last() =~= pairs);
}

/// In a sorted list each identifier comes before those after it, and none is
/// there twice.
pub proof fn list_is_sorted(pairs: Seq<(String, String)>, i: int, j: int)
    requires
        state::is_ascending(pairs),
        0 <= i < j < pairs.len(),
    ensures
        text::precedes(pairs[i].0@, pairs[j].0@),
        pairs[i].0@ != pairs[j].0@,
{
    text::precedes_is_irreflexive(pairs[i].0@);
}

/// What a known peers file holds: no peers where there is none or a blank one,
/// and else the map that it is the JSON of.
pub proof fn file_holds_its_peers(t: Seq<char>)
    ensures
        state::stored_peers(None) == Some(Map::<Seq<char>, Seq<char>>::empty()),
        text::trimmed_end(t).len() == 0 ==> state::stored_peers(Some(t)) == Some(
            Map::<Seq<char>, Seq<char>>::empty(),
        ),
        text::trimmed_end(t).len() > 0 ==> state::stored_peers(Some(t)) == state::json_map(t),
{
    texts::blank_text_has_nothing_left(t);
}

/// What the user is shown of a known peers file: its peers, and none where it
/// cannot be read or is malformed.
pub proof fn file_shows_its_peers(file: PeersFile)
    ensures
        match file {
            PeersFile::Unreadable => file.peers() == Map::<Seq<char>, Seq<char>>::empty(),
            PeersFile::Missing => file.peers() == Map::<Seq<char>, Seq<char>>::empty(),
            PeersFile::Found(t) => match state::stored_peers(Some(t@)) {
                Some(peers) => file.peers() == peers,
                None => file.peers() == Map::<Seq<char>, Seq<char>>::empty(),
            },
        },
{
}

/// A stored secret is 64 hexadecimal digits, two for each of its bytes. A text
/// that is not hexadecimal has one error, one of another length another.
pub proof fn stored_secret_is_its_digits(t: Seq<char>)
    ensures
        match state::stored_secret(t) {
            Ok(secret) => {
                &&& t.len() == 64
                &&& forall|i: int| 0 <= i < 64 ==> text::is_hex_digit(#[trigger] t[i])
                &&& secret.len() == 32
                &&& forall|i: int|
                    0 <= i < 32 ==> #[trigger] secret[i] == 16 * text::hex_digit_value(t[2 * i])
                        + text::hex_digit_value(t[2 * i + 1])
            },
            Err(e) => if text::is_hex(t) {
                e == StateError::SecretLength && t.len() != 64
            } else {
                e == StateError::SecretEncoding
            },
        },
{
    texts::bytes_of_hexadecimal(t);
}

/// A stored keypair is that of its secret: two texts that read as the same
/// secret are the same but for the case of letters.
pub proof fn stored_texts_of_one_secret(a: Seq<char>, b: Seq<char>, i: int)
    requires
        state::stored_secret(a) is Ok,
        state::stored_secret(a) == state::stored_secret(b),
        0 <= i < 32,
    ensures
        text::hex_digit_value(a[2 * i]) == text::hex_digit_value(b[2 * i]),
        text::hex_digit_value(a[2 * i + 1]) == text::hex_digit_value(b[2 * i + 1]),
{
    stored_secret_is_its_digits(a);
    stored_secret_is_its_digits(b);
    let secret = state::stored_secret(a)->Ok_0;
    assert(secret[i] == 16 * text::hex_digit_value(a[2 * i]) + text::hex_digit_value(a[2 * i + 1]));
    assert(secret[i] == 16 * text::hex_digit_value(b[2 * i]) + text::hex_digit_value(b[2 * i + 1]));
    assert(text::is_hex_digit(a[2 * i + 1]));
    assert(text::is_hex_digit(b[2 * i + 1]));
}

/// What is said when no address of a host could be reached names the host and
/// the port, and how the last address failed.
pub proof fn last_failure_is_told(host: Seq<char>, port: u16, failures: Seq<String>, last: String)
    ensures
        connect::connect_failure(host, port, failures.push(last)) == "connect to "@ + (host + ":"@
            + text::decimal(port as nat)) + " failed: "@ + last@,
        connect::connect_failure(host, port, Seq::empty()) == "connect to "@ + (host + ":"@
            + text::decimal(port as nat)) + " failed: "@ + Seq::<char>::empty(),
{
}

/// What is known of a peer is one of three things.
pub proof fn decision_is_what_it_says(decision: TrustDecision)
    ensures
        match decision {
            TrustDecision::New => decision@ == Trust::New,
            TrustDecision::Verified => decision@ == Trust::Verified,
            TrustDecision::Mismatch { expected } => decision@ == (Trust::Mismatch {
                expected: expected@,
            }),
        },
{
}

} // verus!
