//! What the operations that change something leave behind: of a session's
//! halves, a chat, a stream, the known peers and the application.

use crate::app::App;
use crate::chat::{self, ChatEvent, ChatSession, Line, Outgoing};
use crate::connect::Attempts;
use crate::crypto::{self, CryptoError, Identity, SessionReceiver, SessionSender};
use crate::laws::{talk, wire};
use crate::primitives;
use crate::protocol::{self, ByteReader, FrameError};
use crate::screens::{Answer, Event, KeyCode, KeyEvent, Polled, Request, Screen, ScreenView};
use crate::state::{self, KnownPeers, TrustDecision};
use crate::text;
use crate::transitions::step;
use vstd::prelude::*;
use vstd::utf8::{decode_utf8, encode_utf8, valid_utf8};

verus! {

/// An answer as the application takes it: the failure with its whole text.
pub open spec fn said(answer: Answer) -> Result<(), Seq<char>> {
    match answer {
        Ok(_) => Ok(()),
        Err(e) => Err(e@),
    }
}

/// A sending half encrypts every message that fits a frame, under its key and
/// the nonce of its counter, and moves on by one.
pub proof fn encrypting_succeeds(plaintext: &[u8])
    requires
        plaintext@.len() + 16 <= 65536,
    ensures
        forall|s: &mut SessionSender, res: Result<Vec<u8>, CryptoError>| #[trigger]
            call_ensures(SessionSender::encrypt, (s, plaintext), res) && (*s).counter() < u64::MAX
                ==> {
                &&& res matches Ok(c) && c@ == primitives::chacha_seal(
                    (*s).key(),
                    crypto::nonce_of((*s).counter()),
                    plaintext@,
                ) && c@.len() == plaintext@.len() + 16
                &&& (*final(s)).counter() == (*s).counter() + 1
                &&& (*final(s)).key() == (*s).key()
            },
{
}

/// What one end of a direction encrypts the other decrypts to the very message.
pub proof fn decrypting_gives_the_message_back(plaintext: &[u8], ciphertext: &[u8])
    requires
        plaintext@.len() + 16 <= 65536,
    ensures
        forall|
            s: &mut SessionSender,
            sent: Result<Vec<u8>, CryptoError>,
            r: &mut SessionReceiver,
            got: Result<Vec<u8>, CryptoError>,
        |
            #![trigger call_ensures(SessionSender::encrypt, (s, plaintext), sent),
                call_ensures(SessionReceiver::decrypt, (r, ciphertext), got)]
            call_ensures(SessionSender::encrypt, (s, plaintext), sent) && call_ensures(
                SessionReceiver::decrypt,
                (r, ciphertext),
                got,
            ) && (sent matches Ok(c) ==> ciphertext@ == c@) && (*s).key() == (*r).key()
                && (*s).counter() == (*r).counter() && (*s).counter() < u64::MAX ==> {
                &&& sent is Ok
                &&& got matches Ok(p) && p@ == plaintext@
                &&& (*final(s)).key() == (*final(r)).key()
                &&& (*final(s)).counter() == (*final(r)).counter()
            },
{
}

/// A half whose counter is used up refuses everything, and stays as it was.
pub proof fn used_up_halves_refuse(bytes: &[u8])
    ensures
        forall|s: &mut SessionSender, res: Result<Vec<u8>, CryptoError>| #[trigger]
            call_ensures(SessionSender::encrypt, (s, bytes), res) && (*s).counter() == u64::MAX
                ==> {
                &&& res matches Err(e) && e == CryptoError::CounterOverflow
                &&& (*final(s)).counter() == u64::MAX
            },
        forall|r: &mut SessionReceiver, res: Result<Vec<u8>, CryptoError>| #[trigger]
            call_ensures(SessionReceiver::decrypt, (r, bytes), res) && (*r).counter() == u64::MAX
                ==> {
                &&& res matches Err(e) && e == CryptoError::CounterOverflow
                &&& (*final(r)).counter() == u64::MAX
            },
{
}

/// A frame that decrypts to a text is a message with that whole text, and one
/// that does not decrypt is an error.
pub proof fn received_frame_is_its_text(frame: &[u8])
    ensures
        forall|r: &mut SessionReceiver, event: ChatEvent| #[trigger]
            call_ensures(chat::receive_frame, (r, frame), event) && (*r).counter() < u64::MAX ==> {
                &&& match primitives::chacha_open(
                    (*r).key(),
                    crypto::nonce_of((*r).counter()),
                    frame@,
                ) {
                    Some(p) => event matches ChatEvent::Message(t) && (valid_utf8(p) ==> t@
                        == decode_utf8(p)),
                    None => event matches ChatEvent::Error(e) && e@ == "decrypt failed: "@
                        + CryptoError::DecryptionFailed.text(),
                }
                &&& (*final(r)).key() == (*r).key()
                &&& (*final(r)).counter() == (*r).counter() + 1
            },
{
}

/// Writing a frame adds its length in four bytes, highest first, and the whole
/// payload; what was written before stays.
pub proof fn written_frame_stands_at_the_end(payload: &[u8])
    requires
        payload@.len() < 0x1_0000_0000,
    ensures
        forall|w: &mut Vec<u8>| #[trigger]
            call_ensures(protocol::write_frame, (w, payload), ()) ==> {
                let n = (*w)@.len() as int;
                let after = (*final(w))@;
                &&& after.len() == n + 4 + payload@.len()
                &&& after.take(n) == (*w)@
                &&& after.skip(n + 4) == payload@
                &&& payload@.len() == 16777216 * after[n] + 65536 * after[n + 1] + 256
                    * after[n + 2] + after[n + 3]
            },
{
    wire::frame_is_length_and_payload(payload@);
    assert forall|w: &mut Vec<u8>| #[trigger]
        call_ensures(protocol::write_frame, (w, payload), ()) implies {
        let n = (*w)@.len() as int;
        let after = (*final(w))@;
        &&& after.len() == n + 4 + payload@.len()
        &&& after.take(n) == (*w)@
        &&& after.skip(n + 4) == payload@
        &&& payload@.len() == 16777216 * after[n] + 65536 * after[n + 1] + 256 * after[n + 2]
            + after[n + 3]
    } by {
        let n = (*w)@.len() as int;
        let after = (*final(w))@;
        assert(after.take(n) =~= (*w)@);
        assert(after.skip(n + 4) =~= protocol::frame(payload@).skip(4));
    }
}

/// Reading a frame gives back the payload that was written, and leaves what
/// comes after it to be read.
pub proof fn written_frame_is_read_back(payload: Seq<u8>, rest: Seq<u8>)
    requires
        payload.len() <= 65536,
    ensures
        forall|r: &mut ByteReader, res: Result<Vec<u8>, FrameError>| #[trigger]
            call_ensures(protocol::read_frame, (r,), res) && (*r).remaining() == protocol::frame(
                payload,
            ) + rest ==> {
                &&& res matches Ok(read) && read@ == payload
                &&& (*final(r)).remaining() == rest
            },
{
    protocol::frame_reads_back(payload, rest);
}

/// A failed attempt is noted after those before it, with its reason, and nothing
/// else is forgotten.
pub proof fn failed_attempt_is_noted(reason: String)
    ensures
        forall|a: &mut Attempts| #[trigger]
            call_ensures(Attempts::failed, (a, reason), ()) ==> {
                &&& (*final(a)).failures@ == (*a).failures@.push(reason)
                &&& (*final(a)).host == (*a).host
                &&& (*final(a)).port == (*a).port
                &&& (*final(a)).addresses == (*a).addresses
            },
{
}

/// A peer that is pinned has that fingerprint from then on, and every other peer
/// what it had.
pub proof fn pinned_peer_is_known(peer_id: &str, fingerprint: &str, other: Seq<char>)
    ensures
        forall|p: &mut KnownPeers| #[trigger]
            call_ensures(state::pin_peer, (p, peer_id, fingerprint), ()) ==> {
                let after = (*final(p))@;
                &&& after.contains_key(peer_id@) && after[peer_id@] == fingerprint@
                &&& other != peer_id@ ==> {
                    &&& after.contains_key(other) <==> (*p)@.contains_key(other)
                    &&& after.contains_key(other) ==> after[other] == (*p)@[other]
                }
            },
{
}

/// A peer that is removed is not known any more, and every other peer stays.
pub proof fn removed_peer_is_not_known(peer_id: &str, other: Seq<char>)
    ensures
        forall|p: &mut KnownPeers| #[trigger]
            call_ensures(state::remove_peer, (p, peer_id), ()) ==> {
                let after = (*final(p))@;
                &&& !after.contains_key(peer_id@)
                &&& other != peer_id@ ==> {
                    &&& after.contains_key(other) <==> (*p)@.contains_key(other)
                    &&& after.contains_key(other) ==> after[other] == (*p)@[other]
                }
            },
{
}

/// What a lookup finds after a peer was pinned: that fingerprint verifies, and
/// any other is told apart from it.
pub proof fn pinned_fingerprint_alone_verifies(
    peer_id: &str,
    fingerprint: &str,
    presented: &str,
)
    ensures
        forall|p: &mut KnownPeers, found: TrustDecision|
            #![trigger call_ensures(state::pin_peer, (p, peer_id, fingerprint), ()),
                call_ensures(state::check_peer, (&*final(p), peer_id, presented), found)]
            call_ensures(state::pin_peer, (p, peer_id, fingerprint), ()) && call_ensures(
                state::check_peer,
                (&*final(p), peer_id, presented),
                found,
            ) ==> if presented@ == fingerprint@ {
                found is Verified
            } else {
                found matches TrustDecision::Mismatch { expected } && expected@ == fingerprint@
            },
{
}

/// Every event that is taken out of the queue stands in the history, in order
/// and whole, behind the lines that stood there.
pub proof fn drained_events_stand_in_the_history(events: Vec<ChatEvent>)
    ensures
        forall|s: &mut ChatSession| #[trigger]
            call_ensures(ChatSession::drain_events, (s, events), ()) ==> {
                let n = (*s).history@.len();
                let before = (*s)@.history;
                let after = (*final(s))@.history;
                &&& (*final(s)).history@.len() == n + events@.len()
                &&& forall|i: int| 0 <= i < n ==> #[trigger] after[i] == before[i]
                &&& forall|i: int|
                    0 <= i < events@.len() ==> talk::is_line_of(after[n + i], #[trigger] events@[i])
                &&& (*final(s)).input@ == (*s).input@
                &&& (*final(s)).sender == (*s).sender
                &&& (*final(s)).scroll == (*s).scroll
            },
{
    assert forall|s: &mut ChatSession| #[trigger]
        call_ensures(ChatSession::drain_events, (s, events), ()) implies {
        let n = (*s).history@.len();
        let before = (*s)@.history;
        let after = (*final(s))@.history;
        &&& (*final(s)).history@.len() == n + events@.len()
        &&& forall|i: int| 0 <= i < n ==> #[trigger] after[i] == before[i]
        &&& forall|i: int|
            0 <= i < events@.len() ==> talk::is_line_of(after[n + i], #[trigger] events@[i])
        &&& (*final(s)).input@ == (*s).input@
        &&& (*final(s)).sender == (*s).sender
        &&& (*final(s)).scroll == (*s).scroll
    } by {
        talk::events_stand_in_the_history_as_received((*s)@, events@);
        assert((*s)@.history.len() == (*s).history@.len());
        assert((*final(s))@.history.len() == (*final(s)).history@.len());
    }
}

/// A text that was sent ends the history as one's own, the input is empty then,
/// and a remark ends it as a remark.
pub proof fn sent_text_ends_the_history(t: String)
    ensures
        forall|s: &mut ChatSession| #[trigger]
            call_ensures(ChatSession::sent, (s, t), ()) ==> {
                &&& (*final(s))@.history == (*s)@.history.push(Line::Me(t@))
                &&& (*final(s)).input@.len() == 0
                &&& (*final(s)).sender == (*s).sender
            },
        forall|s: &mut ChatSession| #[trigger]
            call_ensures(ChatSession::push_system, (s, t), ()) ==> {
                &&& (*final(s))@.history == (*s)@.history.push(Line::System(t@))
                &&& (*final(s)).input@ == (*s).input@
                &&& (*final(s)).sender == (*s).sender
            },
{
}

/// What was typed is sent: a text that fits a frame goes out whole, but for the
/// white space at its end, encrypted under the session's key and framed.
pub proof fn typed_text_goes_out(t: Seq<char>, white: Seq<char>)
    requires
        t.len() > 0,
        !text::is_white(t.last()),
        forall|i: int| 0 <= i < white.len() ==> text::is_white(#[trigger] white[i]),
        encode_utf8(t).len() + 16 <= 65536,
    ensures
        forall|s: &mut ChatSession, res: Result<Option<Outgoing>, CryptoError>| #[trigger]
            call_ensures(ChatSession::send, (s,), res) && (*s).input@ == t + white
                && (*s).sender.counter() < u64::MAX ==> {
                &&& res matches Ok(Some(out)) && out.text@ == t && out.frame@ == protocol::frame(
                    primitives::chacha_seal(
                        (*s).sender.key(),
                        crypto::nonce_of((*s).sender.counter()),
                        encode_utf8(t),
                    ),
                )
                &&& (*final(s)).sender.counter() == (*s).sender.counter() + 1
                &&& (*final(s)).sender.key() == (*s).sender.key()
                &&& (*final(s))@.history == (*s)@.history
                &&& (*final(s)).input@ == (*s).input@
            },
{
    talk::cutting_stops_at_the_text(t, white);
}

/// A blank input is not sent, and no number is used for it.
pub proof fn blank_text_does_not_go_out()
    ensures
        forall|s: &mut ChatSession, res: Result<Option<Outgoing>, CryptoError>|
            #![trigger call_ensures(ChatSession::send, (s,), res)]
            call_ensures(ChatSession::send, (s,), res) && (forall|i: int|
                0 <= i < (*s).input@.len() ==> text::is_white(#[trigger] (*s).input@[i])) ==> {
                &&& res matches Ok(None)
                &&& (*final(s)).sender == (*s).sender
            },
{
    assert forall|s: &mut ChatSession, res: Result<Option<Outgoing>, CryptoError>|
        #![trigger call_ensures(ChatSession::send, (s,), res)]
        call_ensures(ChatSession::send, (s,), res) && (forall|i: int|
            0 <= i < (*s).input@.len() ==> text::is_white(
                #[trigger] (*s).input@[i],
            )) implies {
        &&& res matches Ok(None)
        &&& (*final(s)).sender == (*s).sender
    } by {
        let input = (*s).input@;
        talk::cutting_stops_at_the_text(Seq::empty(), input);
        assert(Seq::<char>::empty() + input =~= input);
    }
}

/// The application takes a key as the event of that key.
pub proof fn keys_are_taken(key: KeyEvent)
    ensures
        forall|a: &mut App, r: Request| #[trigger]
            call_ensures(App::on_key, (a, key), r) ==> ((*final(a))@, r@) == step(
                (*a)@,
                Event::Key(key),
            ),
{
}

/// The application takes each answer as the event that it is, with its whole
/// text.
pub proof fn answers_are_taken(port: u16, text: String, answer: Answer)
    ensures
        forall|a: &mut App, r: Request| #[trigger]
            call_ensures(App::on_bound, (a, port, answer), r) ==> ((*final(a))@, r@) == step(
                (*a)@,
                Event::Bound { port, answer: said(answer) },
            ),
        forall|a: &mut App, r: Request| #[trigger]
            call_ensures(App::on_peer_added, (a, answer), r) ==> ((*final(a))@, r@) == step(
                (*a)@,
                Event::PeerAdded(said(answer)),
            ),
        forall|a: &mut App, r: Request| #[trigger]
            call_ensures(App::on_peer_removed, (a, answer), r) ==> ((*final(a))@, r@) == step(
                (*a)@,
                Event::PeerRemoved(said(answer)),
            ),
        forall|a: &mut App, r: Request| #[trigger]
            call_ensures(App::on_peer_pinned, (a, answer), r) ==> ((*final(a))@, r@) == step(
                (*a)@,
                Event::PeerPinned(said(answer)),
            ),
        forall|a: &mut App, r: Request| #[trigger]
            call_ensures(App::on_chat_started, (a, answer), r) ==> ((*final(a))@, r@) == step(
                (*a)@,
                Event::ChatStarted(said(answer)),
            ),
        forall|a: &mut App, r: Request| #[trigger]
            call_ensures(App::on_sent, (a, text, answer), r) ==> ((*final(a))@, r@) == step(
                (*a)@,
                Event::Sent { text: text@, answer: said(answer) },
            ),
{
}

/// The application takes the peers that were read as they are, in their order,
/// and selects the first.
pub proof fn read_peers_are_taken(peers: Vec<(String, String)>)
    ensures
        forall|a: &mut App, r: Request| #[trigger]
            call_ensures(App::on_peers_loaded, (a, peers), r) ==> {
                &&& (*final(a))@.screen matches ScreenView::Peers { peers: shown, selected }
                    && selected == 0 && shown.len() == peers@.len() && forall|i: int|
                    0 <= i < peers@.len() ==> #[trigger] shown[i] == (peers@[i].0@, peers@[i].1@)
                &&& r is Nothing
            },
{
}

/// A keypair that was generated is the application's from then on.
pub proof fn generated_keypair_is_taken(identity: Identity, reason: String)
    ensures
        forall|a: &mut App, r: Request| #[trigger]
            call_ensures(App::on_keypair, (a, Ok::<Identity, String>(identity)), r) ==> {
                &&& (*final(a)).identity == identity
                &&& (*final(a)).my_fingerprint@ == text::hex(
                    primitives::sha256(identity.public@ + identity.signing.verifying@),
                )
            },
        forall|a: &mut App, r: Request| #[trigger]
            call_ensures(App::on_keypair, (a, Err::<Identity, String>(reason)), r) ==> {
                &&& (*final(a)).identity == (*a).identity
                &&& (*final(a)).my_fingerprint@ == (*a).my_fingerprint@
            },
{
}

/// The application takes what a lookup of the peer found, and what is found of
/// the connections, as it is.
pub proof fn findings_are_taken(checked: Result<TrustDecision, String>, polled: Polled)
    ensures
        forall|a: &mut App, r: Request| #[trigger]
            call_ensures(App::on_peer_checked, (a, checked), r) ==> ((*final(a))@, r@) == step(
                (*a)@,
                Event::PeerChecked(
                    match checked {
                        Ok(decision) => Ok(decision@),
                        Err(e) => Err(e@),
                    },
                ),
            ),
        forall|a: &mut App, r: Request| #[trigger]
            call_ensures(App::tick, (a, polled), r) ==> ((*final(a))@, r@) == step(
                (*a)@,
                match polled {
                    Polled::Nothing => Event::Nothing,
                    Polled::Connected(Ok(o)) => Event::Connected(Ok(o@)),
                    Polled::Connected(Err(e)) => Event::Connected(Err(e@)),
                    Polled::Accepted(Ok(o)) => Event::Accepted(Ok(o@)),
                    Polled::Accepted(Err(e)) => Event::Accepted(Err(e@)),
                    Polled::AcceptFailed(e) => Event::AcceptFailed(e@),
                    Polled::ChatEvents(events) => Event::ChatEvents(events@),
                },
            ),
{
}

/// A character that is typed into a chat that goes on is the last of its input,
/// the very character, behind what was typed before.
pub proof fn typed_character_is_in_the_input(c: char)
    ensures
        forall|a: &mut App, r: Request| #[trigger]
            call_ensures(
                App::on_key,
                (a, KeyEvent { code: KeyCode::Char(c), control: false, release: false }),
                r,
            ) && ((*a).screen matches Screen::Chat(s) && !s.ended) ==> {
                &&& (*final(a)).screen matches Screen::Chat(s) && s.input@
                    == (*a).screen->Chat_0.input@.push(c)
                &&& r is Nothing
            },
{
}

/// A character that is typed into the host field is the last of the host, the
/// very character, whatever it is.
pub proof fn typed_character_is_in_the_host(c: char)
    ensures
        forall|a: &mut App, r: Request| #[trigger]
            call_ensures(
                App::on_key,
                (a, KeyEvent { code: KeyCode::Char(c), control: false, release: false }),
                r,
            ) && ((*a).screen matches Screen::Connect { focus, .. } && focus is Host) ==> {
                &&& (*final(a)).screen matches Screen::Connect { host, port, focus, .. } && host@
                    == (*a).screen->Connect_host@.push(c) && port@ == (*a).screen->Connect_port@
                    && focus is Host
                &&& r is Nothing
            },
{
}

/// The peer that removal is asked for is the selected one, by its address, on
/// either key.
pub proof fn selected_peer_is_asked_to_be_removed(c: char)
    requires
        c == 'r' || c == 'd',
    ensures
        forall|a: &mut App, r: Request| #[trigger]
            call_ensures(
                App::on_key,
                (a, KeyEvent { code: KeyCode::Char(c), control: false, release: false }),
                r,
            ) && ((*a).screen matches Screen::Peers { peers, selected } && selected
                < peers@.len()) ==> (r matches Request::RemovePeer { address } && address@
                == (*a).screen->Peers_peers@[(*a).screen->Peers_selected as int].0@),
{
}

} // verus!
