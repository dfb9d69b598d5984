//! How calls of the library's functions relate: what one gives back of another,
//! and what each must give for every input.

use crate::app::{self, App};
use crate::bytes;
use crate::chat::{self, ChatEvent, ChatSession, ReadFailure};
use crate::connect::{self, Attempt, Attempts};
use crate::crypto::{
    self, CryptoError, EphemeralSecret, Identity, PeerKeys, PublicKey, SessionReceiver,
    SessionSender, VerifyingKey,
};
use crate::laws::{texts, wire};
use crate::primitives;
use crate::protocol::{
    self, FrameError, Handshake, HandshakeAction, HandshakeError, Progress, Stage,
};
use crate::screens::{KeyEvent, OpeningView, Outcome, Polled, Screen, ScreenView};
use crate::state::{self, KnownPeers, LoadedKeypair, PeersFile, StateError, TrustDecision};
use crate::text;
use crate::ui::{self, Page, Span};
use vstd::prelude::*;
use vstd::utf8::encode_utf8;

verus! {

/// The addresses of a host are tried in their order, each once, and none is left
/// out before giving up.
pub proof fn addresses_are_tried_in_turn(attempts: Attempts, next: Attempt)
    requires
        attempts.wf(),
        call_ensures(Attempts::next, (&attempts,), next),
    ensures
        match next {
            Attempt::Try(i) => i == attempts.failures@.len() && i < attempts.addresses,
            Attempt::GiveUp(reason) => attempts.failures@.len() == attempts.addresses && reason@
                == "connect to "@ + (attempts.host@ + ":"@ + text::decimal(attempts.port as nat))
                + " failed: "@ + (if attempts.addresses == 0 {
                Seq::<char>::empty()
            } else {
                attempts.failures@.last()@
            }),
        },
{
}

/// The first address of a host that has any is tried first.
pub proof fn first_address_is_tried_first(
    host: &str,
    port: u16,
    addresses: usize,
    attempts: Attempts,
    next: Attempt,
)
    requires
        call_ensures(Attempts::new, (host, port, addresses), attempts),
        call_ensures(Attempts::next, (&attempts,), next),
        addresses > 0,
    ensures
        next == Attempt::Try(0),
        attempts.host@ == host@,
        attempts.port == port,
        attempts.addresses == addresses,
{
}

/// A peer that connects is known by its IP address, whichever port it connects
/// from; one that is connected to by host and port.
pub proof fn peers_are_known_by(
    ip: &str,
    port1: u16,
    port2: u16,
    first: String,
    second: String,
    connected: String,
)
    requires
        call_ensures(connect::accepted_peer_id, (ip, port1), first),
        call_ensures(connect::accepted_peer_id, (ip, port2), second),
        call_ensures(app::peer_address, (ip, port1), connected),
    ensures
        first@ == ip@,
        first@ == second@,
        connected@ == ip@ + ":"@ + text::decimal(port1 as nat),
{
}

/// What is said of a host that has no address, and what an attempt to accept a
/// peer comes to.
pub proof fn failures_to_connect_are_told(
    host: &str,
    port: u16,
    cause: &str,
    told: String,
    would_block: bool,
    polled: Polled,
)
    requires
        call_ensures(connect::resolve_failure, (host, port, cause), told),
        call_ensures(connect::accept_failure, (would_block, cause), polled),
    ensures
        told@ == "failed to resolve "@ + (host@ + ":"@ + text::decimal(port as nat)) + ": "@
            + cause@,
        would_block ==> polled is Nothing,
        !would_block ==> (polled matches Polled::AcceptFailed(e) && e@ == cause@),
{
}

/// The end of the bytes and a reset are the peer's leaving; any other failure to
/// read is an error with its whole message; and both end the session.
pub proof fn failure_to_read_ends_the_session(
    kind: ReadFailure,
    message: &str,
    event: ChatEvent,
    ends: bool,
)
    requires
        call_ensures(chat::read_failure, (kind, message), event),
        call_ensures(ChatEvent::ends_session, (&event,), ends),
    ensures
        match kind {
            ReadFailure::Other => event matches ChatEvent::Error(e) && e@ == "connection error: "@
                + message@,
            _ => event is Disconnected,
        },
        ends,
{
}

/// A message does not end a session.
pub proof fn message_does_not_end_the_session(event: ChatEvent, ends: bool)
    requires
        event is Message,
        call_ensures(ChatEvent::ends_session, (&event,), ends),
    ensures
        !ends,
{
}

/// What a handshake gives is put together as it is, with the fingerprint of both
/// long-term keys of the peer.
pub proof fn outcome_keeps_what_the_handshake_gave(
    sender: SessionSender,
    receiver: SessionReceiver,
    peer: PeerKeys,
    id: String,
    outcome: Outcome,
    fp: String,
)
    requires
        call_ensures(app::outcome_from_handshake, (sender, receiver, &peer, id), outcome),
        call_ensures(crypto::fingerprint, (&peer.static_public, &peer.signing_public), fp),
    ensures
        outcome.sender == sender,
        outcome.receiver == receiver,
        outcome.peer_id@ == id@,
        outcome.peer_fingerprint@ == fp@,
        fp@.len() == 64,
        fp@ == text::hex(
            primitives::sha256(peer.static_public.bytes@ + peer.signing_public.bytes@),
        ),
{
}

/// The application starts on its menu, with the fingerprint of its identity.
pub proof fn application_starts_on_the_menu(identity: Identity, started: App, fp: String)
    requires
        call_ensures(App::new, (identity,), started),
        call_ensures(
            crypto::fingerprint,
            (&identity.public, &identity.signing.verifying),
            fp,
        ),
    ensures
        started.identity == identity,
        started.my_fingerprint@ == fp@,
        started@.screen == (ScreenView::Menu { selected: 0 }),
        !started.should_quit,
        started@.opening == OpeningView::Idle,
{
}

/// A chat session starts empty, with the peer's short fingerprint.
pub proof fn session_starts_empty(sender: SessionSender, fp: String, session: ChatSession)
    requires
        call_ensures(ChatSession::new, (sender, fp), session),
    ensures
        session.sender == sender,
        session.history@.len() == 0,
        session.input@.len() == 0,
        session.scroll == 0,
        session.peer_short_fp@ == fp@,
        !session.ended,
{
    assert(session@.history.len() == session.history@.len());
}

/// A keypair persists: what is stored of an identity is read back as the same
/// identity, all its keys included, and is not stored anew.
pub proof fn keypair_persists(
    identity: Identity,
    stored: String,
    read: &str,
    loaded: Result<LoadedKeypair, StateError>,
)
    requires
        identity.wf(),
        call_ensures(state::keypair_text, (&identity,), stored),
        read@ == stored@,
        call_ensures(state::load_or_create_keypair, (Some(read),), loaded),
    ensures
        loaded matches Ok(again) && {
            &&& again.identity.secret@ == identity.secret@
            &&& again.identity.public@ == identity.public@
            &&& again.identity.signing.seed@ == identity.signing.seed@
            &&& again.identity.signing.verifying@ == identity.signing.verifying@
            &&& again.to_store is None
        },
{
}

/// A keypair that is made on first run is stored, and what is stored is read
/// back as that keypair.
pub proof fn first_keypair_is_stored(
    made: Result<LoadedKeypair, StateError>,
    read: &str,
    loaded: Result<LoadedKeypair, StateError>,
)
    requires
        call_ensures(state::load_or_create_keypair, (None,), made),
        made matches Ok(first) ==> (first.to_store matches Some(t) ==> read@ == t@),
        call_ensures(state::load_or_create_keypair, (Some(read),), loaded),
    ensures
        made matches Ok(first) && first.to_store is Some && (loaded matches Ok(again)
            && again.identity.secret@ == first.identity.secret@ && again.identity.public@
            == first.identity.public@),
{
    let first = made->Ok_0;
    state::stored_keypair_reads_back(first.identity.secret@);
}

/// The known peers persist: what is written of them is read back as the same
/// peers.
pub proof fn known_peers_persist(
    peers: KnownPeers,
    written: Result<String, StateError>,
    read: &str,
    loaded: Result<KnownPeers, StateError>,
)
    requires
        call_ensures(state::save_known_peers, (&peers,), written),
        written matches Ok(t) ==> read@ == t@,
        call_ensures(state::load_known_peers, (Some(read),), loaded),
    ensures
        written is Ok,
        loaded matches Ok(again) && again@ == peers@ && again.wf(),
{
}

/// Where there is no file there are no known peers.
pub proof fn no_file_means_no_peers(loaded: Result<KnownPeers, StateError>)
    requires
        call_ensures(state::load_known_peers, (None,), loaded),
    ensures
        loaded matches Ok(peers) && peers@ == Map::<Seq<char>, Seq<char>>::empty(),
{
}

/// What is listed is what is trusted: every peer on the list, with the
/// fingerprint that stands there, verifies; and every known peer is listed.
pub proof fn listed_peers_are_the_trusted_ones(
    peers: KnownPeers,
    list: Vec<(String, String)>,
    i: int,
    id: &str,
    fp: &str,
    decision: TrustDecision,
)
    requires
        peers.wf(),
        call_ensures(state::list_peers, (&peers,), list),
        call_ensures(state::check_peer, (&peers, id, fp), decision),
    ensures
        0 <= i < list@.len() && id@ == list@[i].0@ && fp@ == list@[i].1@ ==> decision is Verified,
        decision is Verified ==> exists|j: int|
            0 <= j < list@.len() && (#[trigger] list@[j]).0@ == id@ && list@[j].1@ == fp@,
        decision is New ==> forall|j: int|
            0 <= j < list@.len() ==> (#[trigger] list@[j]).0@ != id@,
{
    state::ascending_map(list@);
    if decision is Verified {
        let j = choose|j: int| 0 <= j < list@.len() && #[trigger] list@[j].0@ == id@;
        assert(list@[j].1@ == fp@);
    }
    if decision is New {
        assert forall|j: int| 0 <= j < list@.len() implies (#[trigger] list@[j]).0@ != id@ by {
            if list@[j].0@ == id@ {
                assert(state::map_of(list@).contains_key(id@));
            }
        }
    }
}

/// Two honest sides that make their sessions can talk: both calls succeed, and
/// each sending half is in step with the other's receiving half.
pub proof fn honest_sides_make_sessions_in_step(
    alice: Identity,
    alice_ephemeral: EphemeralSecret,
    seen_by_alice: PeerKeys,
    alice_session: Result<(SessionSender, SessionReceiver), CryptoError>,
    bob: Identity,
    bob_ephemeral: EphemeralSecret,
    seen_by_bob: PeerKeys,
    bob_session: Result<(SessionSender, SessionReceiver), CryptoError>,
)
    requires
        alice.wf(),
        alice_ephemeral.wf(),
        bob.wf(),
        bob_ephemeral.wf(),
        seen_by_alice.static_public@ == bob.public@,
        seen_by_alice.ephemeral_public@ == bob_ephemeral.public_bytes(),
        seen_by_bob.static_public@ == alice.public@,
        seen_by_bob.ephemeral_public@ == alice_ephemeral.public_bytes(),
        call_ensures(
            crypto::make_session,
            (&alice, &alice_ephemeral, &seen_by_alice, true),
            alice_session,
        ),
        call_ensures(
            crypto::make_session,
            (&bob, &bob_ephemeral, &seen_by_bob, false),
            bob_session,
        ),
    ensures
        alice_session matches Ok((alice_sends, alice_receives)) && (bob_session matches Ok(
            (bob_sends, bob_receives),
        ) && {
            &&& crypto::in_step(alice_sends, bob_receives)
            &&& crypto::in_step(bob_sends, alice_receives)
            &&& alice_sends.counter() == 0
            &&& bob_sends.counter() == 0
        }),
{
    let (alice_sends, alice_receives) = alice_session->Ok_0;
    let (bob_sends, bob_receives) = bob_session->Ok_0;
    crypto::sessions_are_in_step(
        alice,
        alice_ephemeral,
        alice_sends,
        alice_receives,
        bob,
        bob_ephemeral,
        bob_sends,
        bob_receives,
        seen_by_alice@,
        seen_by_bob@,
    );
}

/// A key that is all zeros is refused, and no other is.
pub proof fn zero_keys_alone_are_refused(
    identity: Identity,
    ephemeral: EphemeralSecret,
    peer: PeerKeys,
    is_initiator: bool,
    session: Result<(SessionSender, SessionReceiver), CryptoError>,
)
    requires
        call_ensures(
            crypto::make_session,
            (&identity, &ephemeral, &peer, is_initiator),
            session,
        ),
    ensures
        ({
            let zero = Seq::new(32, |i: int| 0u8);
            let degenerate = peer.static_public@ == zero || peer.ephemeral_public@ == zero;
            &&& degenerate ==> (session matches Err(e) && e == CryptoError::DegenerateKey)
            &&& !degenerate ==> session is Ok
        }),
{
    texts::only_zeros_are_all_zero(peer.static_public@);
    texts::only_zeros_are_all_zero(peer.ephemeral_public@);
}

/// An identity and an ephemeral key are made of the very secret that is given,
/// and what they sign their own key accepts.
pub proof fn secrets_are_kept(
    secret: [u8; 32],
    identity: Identity,
    ephemeral: EphemeralSecret,
    message: &[u8],
    signature: [u8; 64],
    accepted: bool,
)
    requires
        call_ensures(Identity::from_secret_bytes, (secret,), identity),
        call_ensures(EphemeralSecret::from_secret_bytes, (secret,), ephemeral),
        call_ensures(crypto::SigningKey::sign, (&identity.signing, message), signature),
        call_ensures(
            VerifyingKey::verify,
            (&identity.signing.verifying, message, &signature),
            accepted,
        ),
    ensures
        identity.secret@ == secret@,
        ephemeral.secret_bytes() == secret@,
        identity.public@ == ephemeral.public_bytes(),
        accepted,
{
}

/// A public key is the bytes that it was made of, and bytes are a verifying key
/// exactly where the curve has one for them.
pub proof fn keys_are_their_bytes(
    bytes: [u8; 32],
    public: PublicKey,
    verifying: Option<VerifyingKey>,
)
    requires
        call_ensures(PublicKey::from_bytes, (bytes,), public),
        call_ensures(VerifyingKey::from_bytes, (bytes,), verifying),
    ensures
        public@ == bytes@,
        public.bytes@ == bytes@,
        verifying is Some <==> primitives::ed25519_is_key(bytes@),
        verifying matches Some(key) ==> key.bytes@ == bytes@,
{
}

/// How much follows a length prefix, up to 65536 bytes.
pub proof fn prefix_tells_the_length(prefix: [u8; 4], len: Result<usize, FrameError>)
    requires
        call_ensures(protocol::frame_body_len, (&prefix,), len),
    ensures
        ({
            let n = 16777216 * prefix@[0] + 65536 * prefix@[1] + 256 * prefix@[2] + prefix@[3];
            &&& n <= 65536 ==> (len matches Ok(l) && l == n)
            &&& n > 65536 ==> (len matches Err(e) && e == (FrameError::TooLarge { len: n as u32 }))
        }),
{
    texts::four_bytes_of_a_number(0, prefix@);
}

/// A panel stands in the middle: equal margins, and all of it within the whole.
pub proof fn panel_stands_in_the_middle(percent: u16, split: (u16, u16, u16))
    requires
        percent <= 100,
        call_ensures(ui::centered, (percent,), split),
    ensures
        split.1 == percent,
        split.0 == split.2,
        99 <= split.0 + split.1 + split.2 <= 100,
{
}

/// Every error in words.
pub proof fn errors_are_told(
    crypto_error: CryptoError,
    crypto_words: String,
    frame_error: FrameError,
    frame_words: String,
    handshake_error: HandshakeError,
    handshake_words: String,
    state_error: StateError,
    state_words: String,
)
    requires
        call_ensures(CryptoError::message, (&crypto_error,), crypto_words),
        call_ensures(FrameError::message, (&frame_error,), frame_words),
        call_ensures(HandshakeError::message, (&handshake_error,), handshake_words),
        call_ensures(StateError::message, (&state_error,), state_words),
    ensures
        crypto_words@ == match crypto_error {
            CryptoError::DegenerateKey => "peer public key is degenerate (all zeros)"@,
            CryptoError::CounterOverflow => "nonce counter overflow"@,
            CryptoError::EncryptionFailed => "encryption failed: aead::Error"@,
            CryptoError::DecryptionFailed => "decryption failed: aead::Error"@,
        },
        frame_words@ == match frame_error {
            FrameError::TooLarge { len } => "frame too large: "@ + text::decimal(len as nat)
                + " bytes"@,
            FrameError::UnexpectedEof => "failed to fill whole buffer"@,
        },
        match handshake_error {
            HandshakeError::InvalidSigningKey => handshake_words@
                == "peer signing key is not a valid Ed25519 point"@,
            HandshakeError::BadSignature => handshake_words@
                == "handshake signature verification failed (possible MITM)"@,
            HandshakeError::Session(e) => e == crypto_error ==> handshake_words@ == crypto_words@,
        },
        state_words@ == match state_error {
            StateError::MalformedPeers => "failed to parse known peers file"@,
            StateError::UnwritablePeers => "failed to serialize known peers"@,
            StateError::SecretEncoding => "invalid secret key encoding"@,
            StateError::SecretLength => "secret key must be 32 bytes"@,
        },
{
}

/// Both sides of a handshake send their bundle and their signature, and wait for
/// as many bytes as the other sends.
pub proof fn sides_send_and_wait(
    handshake: Handshake,
    action: HandshakeAction,
    sent: Result<Progress, HandshakeError>,
    received: Result<Progress, HandshakeError>,
    data: &[u8],
)
    requires
        call_ensures(Handshake::action, (&handshake,), action),
        call_ensures(Handshake::sent, (handshake,), sent),
        call_ensures(Handshake::received, (handshake, data), received),
    ensures
        match handshake.stage() {
            Stage::SendBundle { .. } => action matches HandshakeAction::Send(d) && d@
                == protocol::my_bundle(handshake.party()),
            Stage::ReceiveBundle => action == HandshakeAction::Receive(96),
            Stage::SendSignature { peer, .. } => action matches HandshakeAction::Send(d) && d@
                == protocol::my_signature(handshake.party(), peer),
            Stage::ReceiveSignature { .. } => action == HandshakeAction::Receive(64),
        },
        protocol::came_to(
            sent,
            handshake.party(),
            protocol::after_sending(handshake.party(), handshake.stage()),
        ),
        protocol::came_to(
            received,
            handshake.party(),
            protocol::after_receiving(handshake.party(), handshake.stage(), data@),
        ),
{
}

/// A handshake starts with the side's own keys: the initiator sends first, and
/// what it sends is its three public keys; the responder waits for as many bytes.
pub proof fn initiator_sends_first(
    identity: Identity,
    ephemeral: EphemeralSecret,
    is_initiator: bool,
    handshake: Handshake,
    action: HandshakeAction,
)
    requires
        call_ensures(Handshake::start, (&identity, ephemeral, is_initiator), handshake),
        call_ensures(Handshake::action, (&handshake,), action),
    ensures
        is_initiator ==> (action matches HandshakeAction::Send(data) && data@
            == ephemeral.public_bytes() + identity.public@ + identity.signing.verifying@),
        !is_initiator ==> action == HandshakeAction::Receive(96),
        handshake.party().identity == identity,
        handshake.party().ephemeral == ephemeral,
        handshake.party().is_initiator == is_initiator,
{
}

/// A signature is accepted over the transcript that was signed, under the
/// signer's own role.
pub proof fn own_signature_is_accepted(
    identity: Identity,
    initiator_static: PublicKey,
    responder_static: PublicKey,
    initiator_ephemeral: PublicKey,
    responder_ephemeral: PublicKey,
    transcript: Vec<u8>,
    transcript_read: &[u8],
    is_initiator: bool,
    to_sign: Vec<u8>,
    signed: &[u8],
    signature: [u8; 64],
    verified: Result<(), HandshakeError>,
)
    requires
        identity.wf(),
        call_ensures(
            protocol::transcript_bytes,
            (&initiator_static, &responder_static, &initiator_ephemeral, &responder_ephemeral),
            transcript,
        ),
        transcript_read@ == transcript@,
        call_ensures(protocol::transcript_for_signing, (transcript_read, is_initiator), to_sign),
        signed@ == to_sign@,
        call_ensures(crypto::SigningKey::sign, (&identity.signing, signed), signature),
        call_ensures(
            protocol::verify_signature,
            (&identity.signing.verifying, &signature, transcript_read, is_initiator),
            verified,
        ),
    ensures
        verified is Ok,
        signed@ == wire::message_to_sign(
            initiator_static@,
            responder_static@,
            initiator_ephemeral@,
            responder_ephemeral@,
            if is_initiator {
                'I'
            } else {
                'R'
            },
        ),
{
}

/// What is drawn is the page of the application, at the height of the terminal;
/// the lines of a chat are those that its history and its scrolling leave.
pub proof fn page_is_drawn(
    app: App,
    height: u16,
    page: Page,
    session: ChatSession,
    visible: usize,
    rows: Vec<Span>,
)
    requires
        call_ensures(ui::draw, (&app, height), page),
        call_ensures(ui::chat_lines, (&session, visible), rows),
    ensures
        page@ == ui::page_of(app@, height),
        ui::row_of(rows@) == ui::chat_rows(
            session@.history,
            session.scroll as int,
            visible as int,
        ),
{
}

/// What is made of a text: white space is cut off its ends, a port is read from
/// its digits, and whatever is joined stands whole in the result.
pub proof fn texts_are_worked_on(
    t: &str,
    u: &str,
    trimmed: String,
    trimmed_end: String,
    joined: String,
    equal: bool,
    port: Option<u16>,
    n: u64,
    digits: String,
    chars: Vec<char>,
)
    requires
        call_ensures(text::trim, (t,), trimmed),
        call_ensures(text::trim_end, (t,), trimmed_end),
        call_ensures(text::join, (t, u), joined),
        call_ensures(text::same, (t, u), equal),
        call_ensures(text::parse_port, (t,), port),
        call_ensures(text::decimal_text, (n,), digits),
        call_ensures(text::chars_of, (t,), chars),
    ensures
        trimmed@ == text::trimmed(t@),
        trimmed_end@ == text::trimmed_end(t@),
        joined@.len() == t@.len() + u@.len(),
        joined@.take(t@.len() as int) == t@,
        joined@.skip(t@.len() as int) == u@,
        equal <==> t@ == u@,
        port == text::port_of(t@),
        t@ == digits@ && n <= 65535 ==> port == Some(n as u16),
        chars@ == t@,
{
    assert(joined@.take(t@.len() as int) =~= t@);
    assert(joined@.skip(t@.len() as int) =~= u@);
    if t@ == digits@ && n <= 65535 {
        texts::port_reads_back(n as u16);
    }
}

/// A number in four bytes is read back.
pub proof fn number_is_read_back(n: u32, encoded: [u8; 4], decoded: u32)
    requires
        call_ensures(bytes::encode_u32, (n,), encoded),
        call_ensures(bytes::decode_u32, (&encoded,), decoded),
    ensures
        decoded == n,
        n == 16777216 * encoded@[0] + 65536 * encoded@[1] + 256 * encoded@[2] + encoded@[3],
{
    texts::four_bytes_of_a_number(n, encoded@);
}

/// The halves of a session can be made anew from a key and a count, and a sending
/// half says when its count is used up.
pub proof fn halves_are_made_of_key_and_count(
    key: [u8; 32],
    counter: u64,
    sender: SessionSender,
    receiver: SessionReceiver,
    used_up: bool,
)
    requires
        call_ensures(SessionSender::at, (key, counter), sender),
        call_ensures(SessionReceiver::at, (key, counter), receiver),
        call_ensures(SessionSender::is_used_up, (&sender,), used_up),
    ensures
        crypto::in_step(sender, receiver),
        sender.key() == key@,
        sender.counter() == counter,
        used_up <==> counter == 0xffff_ffff_ffff_ffff,
{
}

/// A keypair that is made anew is stored, and what is stored is read back as that
/// keypair.
pub proof fn new_keypair_is_stored(
    made: LoadedKeypair,
    read: &str,
    loaded: Result<LoadedKeypair, StateError>,
)
    requires
        call_ensures(state::generate_and_save, (), made),
        made.to_store matches Some(t) ==> read@ == t@,
        call_ensures(state::load_or_create_keypair, (Some(read),), loaded),
    ensures
        made.to_store is Some,
        made.identity.wf(),
        loaded matches Ok(again) && again.identity.secret@ == made.identity.secret@,
{
    state::stored_keypair_reads_back(made.identity.secret@);
}

/// The list that is shown of a file that the known peers were written to holds
/// those peers, each at its address; of a file that is missing or cannot be read
/// it is empty.
pub proof fn written_peers_are_listed(
    peers: KnownPeers,
    written: Result<String, StateError>,
    file: PeersFile,
    list: Vec<(String, String)>,
)
    requires
        call_ensures(state::save_known_peers, (&peers,), written),
        call_ensures(state::load_peers, (&file,), list),
    ensures
        match file {
            PeersFile::Found(t) => (written matches Ok(w) && w@ == t@) ==> state::map_of(list@)
                == peers@,
            _ => list@.len() == 0,
        },
{
    if !(file is Found) && list@.len() > 0 {
        assert(state::map_of(list@).contains_key(list@.last().0@));
    }
}

/// No peer is known at first.
pub proof fn no_peer_is_known_at_first(
    peers: KnownPeers,
    peer_id: &str,
    fingerprint: &str,
    decision: TrustDecision,
)
    requires
        call_ensures(KnownPeers::new, (), peers),
        call_ensures(state::check_peer, (&peers, peer_id, fingerprint), decision),
    ensures
        decision is New,
{
}

/// A key is taken in every state but one in which the cipher would not answer
/// for what was typed, or a place in a list would be no number.
pub proof fn keys_can_be_taken(app: App, key: KeyEvent, can: bool)
    requires
        call_ensures(App::can_take, (&app, key), can),
    ensures
        key.release ==> can,
        app.screen matches Screen::Menu { selected } ==> selected < 5 ==> can,
        app.screen matches Screen::Peers { peers, selected } ==> selected < peers.len() ==> can,
        app.screen matches Screen::Chat(session) ==> encode_utf8(
            text::trimmed_end(session.input@),
        ).len() + 16 <= 65536 ==> can,
        !(app.screen is Menu || app.screen is Peers || app.screen is Chat) ==> can,
{
}

/// Keys are handed out as they are held.
pub proof fn keys_are_handed_out(
    identity: Identity,
    ephemeral: EphemeralSecret,
    seed: [u8; 32],
    verifying: VerifyingKey,
    public: &PublicKey,
    bytes_of_public: &[u8; 32],
    bytes_of_verifying: &[u8; 32],
)
    requires
        call_ensures(crypto::SigningKey::to_bytes, (&identity.signing,), seed),
        call_ensures(crypto::SigningKey::verifying_key, (&identity.signing,), verifying),
        call_ensures(EphemeralSecret::public, (&ephemeral,), public),
        call_ensures(PublicKey::as_bytes, (public,), bytes_of_public),
        call_ensures(VerifyingKey::as_bytes, (&verifying,), bytes_of_verifying),
    ensures
        seed@ == identity.signing.seed@,
        verifying == identity.signing.verifying,
        public@ == ephemeral.public_bytes(),
        bytes_of_public@ == ephemeral.public_bytes(),
        bytes_of_verifying@ == identity.signing.verifying.bytes@,
{
}

/// A fingerprint that is typed as it stands is taken as it stands, and its first
/// sixteen digits are what is shown of it.
pub proof fn fingerprint_is_taken_as_it_stands(
    public: PublicKey,
    signing: VerifyingKey,
    fp: String,
    read: &str,
    taken: Option<String>,
    shown: String,
)
    requires
        call_ensures(crypto::fingerprint, (&public, &signing), fp),
        read@ == fp@,
        call_ensures(app::normalize_fingerprint, (read,), taken),
        call_ensures(app::short_fp, (read,), shown),
    ensures
        taken matches Some(t) && t@ == fp@,
        shown@ == "fp:"@ + fp@.take(16),
{
    let t = read@;
    texts::hexadecimal_of_bytes(primitives::sha256(public@ + signing@));
    assert forall|i: int| 0 <= i < t.len() implies text::is_lower_hex_digit(#[trigger] t[i]) by {}
    assert(!text::is_white(t.first()) && !text::is_white(t.last()));
    assert(text::trimmed(t) == t);
    assert(Seq::new(64, |i: int| text::lowered(t[i])) =~= t);
    app::short_fingerprint(t);
}

} // verus!
