//! The Noise XX handshake, and the encryption of what follows it.
//!
//! After the handshake every message carries its own number, so that lost and
//! reordered packets do no harm. A sliding window refuses numbers that came
//! before.

use crate::bytes::{self, part, push_all, push_be, read_be};
use vstd::prelude::*;

verus! {

/// How many numbers below the highest one are remembered.
pub const WINDOW_SIZE: u64 = 128;

/// The numbers of the messages that came in.
#[derive(Debug, Clone, Copy)]
pub struct ReplayWindow {
    /// The highest number so far.
    highest: u64,
    /// Bit `i` tells whether the number `i` below the highest came in.
    bitmap: u128,
}

/// What a [`ReplayWindow`] stands for: the highest number so far, and the
/// numbers that would still be taken.
pub struct Window {
    pub highest: u64,
    pub fresh: Set<u64>,
}

spec fn bit(bitmap: u128, lag: u64) -> bool {
    bitmap & (1u128 << lag) != 0
}

impl View for ReplayWindow {
    type V = Window;

    closed spec fn view(&self) -> Window {
        Window {
            highest: self.highest,
            fresh: Set::new(
                |n: u64|
                    n > self.highest || (self.highest - n < WINDOW_SIZE && !bit(
                        self.bitmap,
                        (self.highest - n) as u64,
                    )),
            ),
        }
    }
}

/// The window after a number came in: a fresh one is fresh no longer, and what
/// falls out of the window is not taken any more.
pub open spec fn recorded(w: Window, nonce: u64) -> Window {
    if !w.fresh.contains(nonce) {
        w
    } else {
        let highest = if nonce > w.highest {
            nonce
        } else {
            w.highest
        };
        Window {
            highest,
            fresh: Set::new(
                |n: u64| w.fresh.contains(n) && n != nonce && n + WINDOW_SIZE > highest,
            ),
        }
    }
}

proof fn lemma_bit_set(b: u128, lag: u64)
    requires
        lag < 128,
    ensures
        forall|m: u64| m < 128 ==> #[trigger] bit(b | (1u128 << lag), m) == (bit(b, m) || m == lag),
{
    assert forall|m: u64| m < 128 implies #[trigger] bit(b | (1u128 << lag), m) == (bit(b, m) || m
        == lag) by {
        assert(((b | (1u128 << lag)) & (1u128 << m) != 0) == (b & (1u128 << m) != 0 || m == lag))
            by (bit_vector)
            requires
                lag < 128,
                m < 128,
        ;
    }
}

proof fn lemma_bit_shifted(b: u128, shift: u32)
    requires
        1 <= shift < 128,
    ensures
        forall|m: u64|
            m < 128 ==> #[trigger] bit((b << shift) | 1, m) == (m == 0 || (m >= shift && bit(
                b,
                (m - shift) as u64,
            ))),
{
    assert forall|m: u64| m < 128 implies #[trigger] bit((b << shift) | 1, m) == (m == 0 || (m
        >= shift && bit(b, (m - shift) as u64))) by {
        if m >= shift {
            let d: u64 = (m - shift) as u64;
            assert((((b << shift) | 1u128) & (1u128 << m) != 0) == (m == 0 || b & (1u128 << d)
                != 0)) by (bit_vector)
                requires
                    1 <= shift < 128,
                    shift <= m < 128,
                    d == m - shift,
            ;
        } else {
            assert((((b << shift) | 1u128) & (1u128 << m) != 0) == (m == 0)) by (bit_vector)
                requires
                    1 <= shift < 128,
                    m < shift,
            ;
        }
    }
}

proof fn lemma_bit_one()
    ensures
        forall|m: u64| m < 128 ==> #[trigger] bit(1, m) == (m == 0),
{
    assert forall|m: u64| m < 128 implies #[trigger] bit(1, m) == (m == 0) by {
        assert((1u128 & (1u128 << m) != 0) == (m == 0)) by (bit_vector)
            requires
                m < 128,
        ;
    }
}

proof fn lemma_bit_none()
    ensures
        forall|m: u64| m < 128 ==> !#[trigger] bit(0, m),
{
    assert forall|m: u64| m < 128 implies !#[trigger] bit(0, m) by {
        assert(0u128 & (1u128 << m) == 0) by (bit_vector);
    }
}

impl Default for ReplayWindow {
    fn default() -> (r: Self)
        ensures
            r@.highest == 0,
            r@.fresh == Set::<u64>::full(),
    {
        let r = ReplayWindow { highest: 0, bitmap: 0 };
        proof {
            lemma_bit_none();
            assert(r@.fresh =~= Set::<u64>::full());
        }
        r
    }
}

impl ReplayWindow {
    /// Tells whether a number is fresh, and notes it.
    pub fn check_and_record(&mut self, nonce: u64) -> (r: bool)
        ensures
            r == old(self)@.fresh.contains(nonce),
            final(self)@ == recorded(old(self)@, nonce),
    {
        if nonce > self.highest {
            let shift: u64 = nonce - self.highest;
            if shift >= 128 {
                self.bitmap = 1;
                proof {
                    lemma_bit_one();
                }
            } else {
                let s: u32 = shift as u32;
                proof {
                    lemma_bit_shifted(self.bitmap, s);
                }
                self.bitmap = (self.bitmap << s) | 1;
            }
            self.highest = nonce;
            assert(self@.fresh =~= recorded(old(self)@, nonce).fresh);
            return true;
        }
        let lag: u64 = self.highest - nonce;
        if lag >= WINDOW_SIZE {
            return false;
        }
        let mask: u128 = 1u128 << lag;
        if self.bitmap & mask != 0 {
            return false;
        }
        proof {
            lemma_bit_set(self.bitmap, lag);
        }
        self.bitmap = self.bitmap | mask;
        assert(self@.fresh =~= recorded(old(self)@, nonce).fresh);
        true
    }
}

/// The window after a row of numbers.
pub open spec fn after_all(w: Window, nonces: Seq<u64>) -> Window
    decreases nonces.len(),
{
    if nonces.len() == 0 {
        w
    } else {
        recorded(after_all(w, nonces.drop_last()), nonces.last())
    }
}

/// Whether the number at position `i` of a row is taken.
pub open spec fn taken(w: Window, nonces: Seq<u64>, i: int) -> bool {
    after_all(w, nonces.subrange(0, i)).fresh.contains(nonces[i])
}

proof fn lemma_stays_used(w: Window, nonces: Seq<u64>, n: u64)
    requires
        !w.fresh.contains(n),
    ensures
        !after_all(w, nonces).fresh.contains(n),
    decreases nonces.len(),
{
    if nonces.len() > 0 {
        lemma_stays_used(w, nonces.drop_last(), n);
    }
}

proof fn lemma_after_concat(w: Window, a: Seq<u64>, b: Seq<u64>)
    ensures
        after_all(w, a + b) == after_all(after_all(w, a), b),
    decreases b.len(),
{
    if b.len() == 0 {
        assert(a + b =~= a);
    } else {
        lemma_after_concat(w, a, b.drop_last());
        assert((a + b).drop_last() =~= a + b.drop_last());
    }
}

/// No number is taken twice, whatever comes between.
pub proof fn no_message_is_taken_twice(w: Window, nonces: Seq<u64>, i: int, j: int)
    requires
        0 <= i < j < nonces.len(),
        nonces[i] == nonces[j],
        taken(w, nonces, i),
    ensures
        !taken(w, nonces, j),
{
    let head = nonces.subrange(0, i + 1);
    let rest = nonces.subrange(i + 1, j);
    assert(head.drop_last() =~= nonces.subrange(0, i));
    assert(!after_all(w, head).fresh.contains(nonces[i]));
    lemma_stays_used(after_all(w, head), rest, nonces[i]);
    lemma_after_concat(w, head, rest);
    assert(nonces.subrange(0, j) =~= head + rest);
}

/// Messages that come late or out of order are taken once each, as long as
/// none is further behind than the window.
pub proof fn late_messages_are_taken(w: Window, nonces: Seq<u64>, n: u64)
    requires
        w.fresh.contains(n),
        !nonces.contains(n),
        n + WINDOW_SIZE > after_all(w, nonces).highest,
    ensures
        after_all(w, nonces).fresh.contains(n),
    decreases nonces.len(),
{
    if nonces.len() > 0 {
        let before = after_all(w, nonces.drop_last());
        assert(before.highest <= after_all(w, nonces).highest);
        assert(!nonces.drop_last().contains(n)) by {
            if nonces.drop_last().contains(n) {
                let k = choose|k: int|
                    0 <= k < nonces.drop_last().len() && nonces.drop_last()[k] == n;
                assert(nonces[k] == n);
            }
        }
        late_messages_are_taken(w, nonces.drop_last(), n);
        assert(nonces[nonces.len() - 1] != n);
    }
}

/// A Noise handshake under way.
#[verifier::external_type_specification]
#[verifier::external_body]
pub struct ExHandshakeState(snow::HandshakeState);

/// The two ciphers that a finished handshake leaves.
#[verifier::external_type_specification]
#[verifier::external_body]
pub struct ExStatelessTransportState(snow::StatelessTransportState);

/// Why a Noise operation failed.
#[verifier::external_type_specification]
#[verifier::external_body]
pub struct ExSnowError(snow::Error);

/// The pattern of the handshake, and its algorithms.
pub const NOISE_PARAMS: &'static str = "Noise_XX_25519_ChaChaPoly_BLAKE2s";

/// How far a handshake of [`NOISE_PARAMS`] is: whether this side began it, and
/// the messages that it wrote and read, in order. There is nothing for any
/// other handshake.
pub uninterp spec fn progress(h: snow::HandshakeState) -> Option<(bool, Seq<Seq<u8>>)>;

/// The public half of the static key with which a side runs a handshake.
pub uninterp spec fn own_key(h: snow::HandshakeState) -> Seq<u8>;

/// Whether two sides could have exchanged these messages: each is written by
/// the side whose turn it is, without payload, and reaches the other as it was
/// written.
pub uninterp spec fn genuine(messages: Seq<Seq<u8>>) -> bool;

/// The public static keys that the messages of a whole handshake carry: of the
/// side that began, and of the side that was called.
pub uninterp spec fn static_keys(messages: Seq<Seq<u8>>) -> (Seq<u8>, Seq<u8>);

/// The keys that a whole handshake leaves: for what the side that began sends,
/// and for what the other side sends. Each side computes them with its private
/// keys, but the public keys in the messages determine what comes out.
pub uninterp spec fn session_keys(messages: Seq<Seq<u8>>) -> (Seq<u8>, Seq<u8>);

/// The keys of a transport in which both sides send: the key for sending, and
/// that for receiving. There is nothing for a transport of one way.
pub uninterp spec fn transport_keys(t: snow::StatelessTransportState) -> Option<
    (Seq<u8>, Seq<u8>),
>;

/// Whether this side began a handshake.
pub open spec fn began(h: snow::HandshakeState) -> bool {
    match progress(h) {
        Some((initiator, messages)) => initiator,
        None => false,
    }
}

/// The messages of a handshake that are through.
pub open spec fn messages(h: snow::HandshakeState) -> Seq<Seq<u8>> {
    match progress(h) {
        Some((initiator, messages)) => messages,
        None => Seq::empty(),
    }
}

/// How many messages of a handshake are through.
pub open spec fn position(h: snow::HandshakeState) -> nat {
    messages(h).len()
}

/// The key under which a transport sends.
pub open spec fn sending_key(t: snow::StatelessTransportState) -> Seq<u8> {
    match transport_keys(t) {
        Some((sending, receiving)) => sending,
        None => Seq::empty(),
    }
}

/// The key under which a transport receives.
pub open spec fn receiving_key(t: snow::StatelessTransportState) -> Seq<u8> {
    match transport_keys(t) {
        Some((sending, receiving)) => receiving,
        None => Seq::empty(),
    }
}

/// The public key of a private key.
pub uninterp spec fn public_key(private: Seq<u8>) -> Seq<u8>;

/// A message encrypted under a key and a number.
pub uninterp spec fn sealed(key: Seq<u8>, nonce: u64, plain: Seq<u8>) -> Seq<u8>;

/// The message that decryption under a key and a number gives; nothing where
/// the tag does not verify.
pub uninterp spec fn opened(key: Seq<u8>, nonce: u64, cipher: Seq<u8>) -> Option<Seq<u8>>;

/// The length of a message of the handshake without payload: an ephemeral key;
/// an ephemeral key, an encrypted static key and a tag; an encrypted static
/// key and a tag.
pub open spec fn message_len(position: nat) -> nat {
    if position == 0 {
        32
    } else if position == 1 {
        96
    } else {
        64
    }
}

/// Whether it is this side's turn to write.
pub open spec fn writes_next(h: snow::HandshakeState) -> bool {
    position(h) < 3 && (position(h) % 2 == 0) == began(h)
}

/// Whether it is this side's turn to read.
pub open spec fn reads_next(h: snow::HandshakeState) -> bool {
    position(h) < 3 && (position(h) % 2 == 0) != began(h)
}

/// The most that a message of the transport can hold.
pub const MAX_MESSAGE: usize = 65_535;

/// The length of the tag of an encrypted message.
pub const TAG_LEN: usize = 16;

/// `snow::Builder::generate_keypair` makes a random private key of 32 bytes
/// and its public key. It fails where the system gives no random bytes.
#[verifier::external_body]
fn snow_keypair(params: &str) -> (r: Option<(Vec<u8>, Vec<u8>)>)
    requires
        params@ == NOISE_PARAMS@,
    ensures
        r matches Some((private, public)) ==> private@.len() == 32 && public@.len() == 32
            && public@ == public_key(private@),
{
    let pair = snow::Builder::new(params.parse().ok()?).generate_keypair().ok()?;
    Some((pair.private, pair.public))
}

/// `snow::Builder::build_initiator` makes the handshake of the side that begins, in
/// which nothing was sent yet. A private key may be shorter than 32 bytes, and is
/// then filled up with zeros. It does not fail on these parameters.
#[verifier::external_body]
fn snow_initiator(params: &str, static_key: &[u8]) -> (r: Result<snow::HandshakeState, snow::Error>)
    requires
        params@ == NOISE_PARAMS@,
        static_key@.len() <= 32,
    ensures
        match r {
            Ok(h) => progress(h) == Some((true, Seq::<Seq<u8>>::empty())) && genuine(
                messages(h),
            ) && (static_key@.len() == 32 ==> own_key(h) == public_key(static_key@)),
            Err(_) => false,
        },
{
    snow::Builder::new(params.parse()?).local_private_key(static_key)?.build_initiator()
}

/// `snow::Builder::build_responder` makes the handshake of the side that answers, in
/// which nothing was sent yet. A private key may be shorter than 32 bytes, and is
/// then filled up with zeros. It does not fail on these parameters.
#[verifier::external_body]
fn snow_responder(params: &str, static_key: &[u8]) -> (r: Result<snow::HandshakeState, snow::Error>)
    requires
        params@ == NOISE_PARAMS@,
        static_key@.len() <= 32,
    ensures
        match r {
            Ok(h) => progress(h) == Some((false, Seq::<Seq<u8>>::empty())) && genuine(
                messages(h),
            ) && (static_key@.len() == 32 ==> own_key(h) == public_key(static_key@)),
            Err(_) => false,
        },
{
    snow::Builder::new(params.parse()?).local_private_key(static_key)?.build_responder()
}

/// `snow::HandshakeState::write_message` writes the next message, here without
/// payload. It fails when it is not this side's turn, and may fail where the
/// message has an ephemeral key and the system gives no random bytes. Nothing
/// is said of a handshake after a failure.
#[verifier::external_body]
fn snow_write(h: &mut snow::HandshakeState) -> (r: Result<Vec<u8>, snow::Error>)
    requires
        progress(*old(h)) is Some,
    ensures
        match r {
            Ok(m) => {
                &&& writes_next(*old(h))
                &&& m@.len() == message_len(position(*old(h)))
                &&& progress(*final(h)) == Some((began(*old(h)), messages(*old(h)).push(m@)))
                &&& own_key(*final(h)) == own_key(*old(h))
                &&& genuine(messages(*old(h))) ==> genuine(messages(*old(h)).push(m@))
            },
            Err(_) => !writes_next(*old(h)) || position(*old(h)) < 2,
        },
{
    let mut buf = vec![0u8; 1024];
    let n = h.write_message(&[], &mut buf)?;
    buf.truncate(n);
    Ok(buf)
}

/// `snow::HandshakeState::read_message` reads the next message of the peer. It
/// fails when it is not the peer's turn and when the message is no such
/// message; it takes what a peer wrote that saw the same messages. Nothing is
/// said of a handshake after a failure.
#[verifier::external_body]
fn snow_read(h: &mut snow::HandshakeState, message: &[u8]) -> (r: Result<usize, snow::Error>)
    requires
        progress(*old(h)) is Some,
    ensures
        match r {
            Ok(_) => {
                &&& reads_next(*old(h))
                &&& message@.len() >= message_len(position(*old(h)))
                &&& progress(*final(h)) == Some((began(*old(h)), messages(*old(h)).push(message@)))
                &&& own_key(*final(h)) == own_key(*old(h))
            },
            Err(_) => !reads_next(*old(h)) || !genuine(messages(*old(h)).push(message@)),
        },
{
    let mut buf = vec![0u8; 1024];
    h.read_message(message, &mut buf)
}

/// `snow::HandshakeState::get_remote_static` gives the public key of the peer,
/// 32 bytes, once it is known; a finished handshake knows it from the peer's
/// message.
#[verifier::external_body]
fn snow_remote_static(h: &snow::HandshakeState) -> (r: Option<Vec<u8>>)
    requires
        progress(*h) is Some,
    ensures
        match r {
            Some(k) => k@.len() == 32 && (position(*h) == 3 ==> k@ == if began(*h) {
                static_keys(messages(*h)).1
            } else {
                static_keys(messages(*h)).0
            }),
            None => position(*h) != 3,
        },
{
    h.get_remote_static().map(|k| k.to_vec())
}

/// `snow::HandshakeState::into_stateless_transport_mode` gives the ciphers of
/// a finished handshake; it fails on any other. The messages carry the key of
/// this side, and what the side that began sends under, the other receives
/// under.
#[verifier::external_body]
fn snow_transport(h: snow::HandshakeState) -> (r: Result<
    snow::StatelessTransportState,
    snow::Error,
>)
    requires
        progress(h) is Some,
    ensures
        match r {
            Ok(t) => {
                let (began_sends, called_sends) = session_keys(messages(h));
                &&& position(h) == 3
                &&& transport_keys(t) == if began(h) {
                    Some((began_sends, called_sends))
                } else {
                    Some((called_sends, began_sends))
                }
                &&& own_key(h) == if began(h) {
                    static_keys(messages(h)).0
                } else {
                    static_keys(messages(h)).1
                }
            },
            Err(_) => position(h) != 3,
        },
{
    h.into_stateless_transport_mode()
}

/// Whether a message of some length can be encrypted under a number.
pub open spec fn sealable(len: nat, nonce: u64) -> bool {
    len + TAG_LEN <= MAX_MESSAGE && nonce != u64::MAX
}

/// `snow::StatelessTransportState::write_message` encrypts a message and adds
/// a tag of 16 bytes. It fails when the result would be too long, and on the
/// number that is reserved. Decryption under the same key and number gives the
/// message back.
#[verifier::external_body]
fn snow_seal(t: &snow::StatelessTransportState, nonce: u64, plain: &[u8]) -> (r: Result<
    Vec<u8>,
    snow::Error,
>)
    requires
        transport_keys(*t) is Some,
        plain@.len() + TAG_LEN <= usize::MAX,
    ensures
        match r {
            Ok(c) => sealable(plain@.len(), nonce) && c@.len() == plain@.len() + TAG_LEN && c@
                == sealed(sending_key(*t), nonce, plain@) && opened(sending_key(*t), nonce, c@)
                == Some(plain@),
            Err(_) => !sealable(plain@.len(), nonce),
        },
{
    let mut buf = vec![0u8; plain.len() + 16];
    let n = t.write_message(nonce, plain, &mut buf)?;
    buf.truncate(n);
    Ok(buf)
}

/// `snow::StatelessTransportState::read_message` decrypts a message. It fails
/// when the message is too long, on the number that is reserved, and when the
/// tag does not verify.
#[verifier::external_body]
fn snow_open(t: &snow::StatelessTransportState, nonce: u64, cipher: &[u8]) -> (r: Result<
    Vec<u8>,
    snow::Error,
>)
    requires
        transport_keys(*t) is Some,
    ensures
        match r {
            Ok(p) => cipher@.len() <= MAX_MESSAGE && nonce != u64::MAX && opened(
                receiving_key(*t),
                nonce,
                cipher@,
            ) == Some(p@),
            Err(_) => cipher@.len() > MAX_MESSAGE || nonce == u64::MAX || opened(
                receiving_key(*t),
                nonce,
                cipher@,
            ) is None,
        },
{
    let mut buf = vec![0u8; cipher.len()];
    let n = t.read_message(nonce, cipher, &mut buf)?;
    buf.truncate(n);
    Ok(buf)
}

/// Why pairing or a message failed.
#[derive(Debug, Clone, Copy, PartialEq, Eq, Structural)]
pub enum PairingError {
    /// The cryptography refused.
    Noise,
    /// The handshake was run before.
    HandshakeDone,
    /// A message is longer than its frame can say.
    FrameTooLarge,
    /// A frame has no number.
    FrameTooShort,
    /// The number of a frame came before, or is too old.
    Replay { nonce: u64 },
}

/// A static key and its public half.
pub struct Keypair {
    pub private: Vec<u8>,
    pub public: Vec<u8>,
}

/// Makes a fresh static key, which the caller keeps on disk.
pub fn generate_static_key() -> (r: Result<Keypair, PairingError>)
    ensures
        match r {
            Ok(k) => k.private@.len() == 32 && k.public@.len() == 32 && k.public@ == public_key(
                k.private@,
            ),
            Err(e) => e == PairingError::Noise,
        },
{
    match snow_keypair(NOISE_PARAMS) {
        Some((private, public)) => Ok(Keypair { private, public }),
        None => Err(PairingError::Noise),
    }
}

/// What a successful handshake leaves.
pub struct NoiseSession {
    /// The public key of the peer.
    pub remote_static: [u8; 32],
    pub transport: snow::StatelessTransportState,
}

impl NoiseSession {
    pub open spec fn well_formed(self) -> bool {
        transport_keys(self.transport) is Some
    }

    /// Whether the session is what a whole handshake leaves with the side that
    /// began it, and this key is its own.
    pub open spec fn began_by(self, own_key: Seq<u8>, messages: Seq<Seq<u8>>) -> bool {
        &&& static_keys(messages) == (own_key, self.remote_static@)
        &&& transport_keys(self.transport) == Some(session_keys(messages))
    }

    /// Whether the session is what a whole handshake leaves with the side that
    /// was called, and this key is its own.
    pub open spec fn answered_by(self, own_key: Seq<u8>, messages: Seq<Seq<u8>>) -> bool {
        &&& static_keys(messages) == (self.remote_static@, own_key)
        &&& transport_keys(self.transport) == Some(
            (session_keys(messages).1, session_keys(messages).0),
        )
    }
}

fn finalize(h: snow::HandshakeState) -> (r: Result<NoiseSession, PairingError>)
    requires
        progress(h) is Some,
    ensures
        r is Ok <==> position(h) == 3,
        r matches Ok(s) ==> if began(h) {
            s.began_by(own_key(h), messages(h))
        } else {
            s.answered_by(own_key(h), messages(h))
        },
        r matches Err(e) ==> e == PairingError::Noise,
{
    let mut remote_static: [u8; 32] = [0;32];
    if let Some(k) = snow_remote_static(&h) {
        let mut i: usize = 0;
        while i < 32
            invariant
                i <= 32,
                k@.len() == 32,
                forall|j: int| 0 <= j < i ==> remote_static@[j] == k@[j],
            decreases 32 - i,
        {
            remote_static[i] = k[i];
            i = i + 1;
        }
        assert(remote_static@ =~= k@);
    }
    match snow_transport(h) {
        Ok(transport) => Ok(NoiseSession { remote_static, transport }),
        Err(_) => Err(PairingError::Noise),
    }
}

/// What two sides hold after one handshake whose messages arrived as they were
/// written: each knows the other's public key, and receives under the key that
/// the other sends under.
pub proof fn the_two_sides_agree(
    caller: NoiseSession,
    caller_key: Seq<u8>,
    called: NoiseSession,
    called_key: Seq<u8>,
    messages: Seq<Seq<u8>>,
)
    requires
        caller.began_by(caller_key, messages),
        called.answered_by(called_key, messages),
    ensures
        caller.remote_static@ == called_key,
        called.remote_static@ == caller_key,
        sending_key(caller.transport) == receiving_key(called.transport),
        sending_key(called.transport) == receiving_key(caller.transport),
{
}

/// A message of the handshake on the wire: two bytes for its length, and the
/// message.
pub open spec fn framed(message: Seq<u8>) -> Seq<u8> {
    bytes::be(message.len(), 2) + message
}

/// Frames a message of the handshake.
pub fn write_frame(message: &[u8]) -> (r: Result<Vec<u8>, PairingError>)
    ensures
        r is Ok <==> message@.len() <= u16::MAX,
        r matches Ok(f) ==> f@ == framed(message@),
        r matches Err(e) ==> e == PairingError::FrameTooLarge,
{
    if message.len() > u16::MAX as usize {
        return Err(PairingError::FrameTooLarge);
    }
    let mut f: Vec<u8> = Vec::new();
    push_be(&mut f, message.len() as u128, 2);
    push_all(&mut f, message);
    assert(f@ =~= framed(message@));
    Ok(f)
}

/// The length of the message that follows the two bytes of a frame's head.
pub fn frame_len(head: [u8; 2]) -> (r: usize)
    ensures
        r == bytes::value(head@),
        r <= u16::MAX,
{
    let n: u128 = read_be(&head);
    proof {
        bytes::numbers_keep_bytes(head@);
        bytes::lemma_limits();
    }
    n as usize
}

/// Reads the frame at the front of what came in: its message, and how many
/// bytes it took. Nothing while it is not complete.
pub fn read_frame(input: &[u8]) -> (r: Option<(Vec<u8>, usize)>)
    ensures
        match r {
            Some((m, used)) => used <= input@.len() && m@.len() <= u16::MAX && framed(m@)
                == input@.subrange(0, used as int),
            None => input@.len() < 2 || input@.len() < 2 + bytes::value(input@.subrange(0, 2)),
        },
{
    if input.len() < 2 {
        return None;
    }
    let len: usize = frame_len([input[0], input[1]]);
    proof {
        assert(seq![input@[0], input@[1]] =~= input@.subrange(0, 2));
        bytes::numbers_keep_bytes(input@.subrange(0, 2));
    }
    if input.len() - 2 < len {
        return None;
    }
    let m = part(input, 2, 2 + len);
    assert(framed(m@) =~= input@.subrange(0, 2 + len));
    Some((m, 2 + len))
}

/// A frame is read back as it was written, whatever follows it.
pub proof fn frames_are_read_back(message: Seq<u8>, rest: Seq<u8>)
    requires
        message.len() <= u16::MAX,
    ensures
        ({
            let wire = framed(message) + rest;
            &&& wire.len() >= 2 + bytes::value(wire.subrange(0, 2))
            &&& bytes::value(wire.subrange(0, 2)) == message.len()
            &&& wire.subrange(2, 2 + message.len() as int) == message
        }),
{
    bytes::lemma_limits();
    bytes::bytes_keep_numbers(message.len(), 2);
    let wire = framed(message) + rest;
    assert(wire.subrange(0, 2) =~= bytes::be(message.len(), 2));
    assert(wire.subrange(2, 2 + message.len() as int) =~= message);
}

/// The message in a frame of the handshake.
pub open spec fn unframed(frame: Seq<u8>) -> Seq<u8> {
    frame.subrange(2, frame.len() as int)
}

proof fn lemma_unframed(message: Seq<u8>)
    requires
        message.len() <= u16::MAX,
    ensures
        unframed(framed(message)) == message,
{
    bytes::lemma_limits();
    bytes::bytes_keep_numbers(message.len(), 2);
    assert(unframed(framed(message)) =~= message);
}

/// A handshake under way: the public half of this side's static key, and the
/// messages that are through.
pub struct Handshake {
    pub own_key: Seq<u8>,
    pub messages: Seq<Seq<u8>>,
}

/// The side that begins the handshake.
pub struct Initiator {
    state: Option<snow::HandshakeState>,
}

/// The side that is called.
pub struct Responder {
    state: Option<snow::HandshakeState>,
}

spec fn under_way(state: Option<snow::HandshakeState>) -> Option<Handshake> {
    match state {
        Some(h) => Some(Handshake { own_key: own_key(h), messages: messages(h) }),
        None => None,
    }
}

impl Initiator {
    /// The handshake; nothing once it is over, well or badly.
    pub closed spec fn at(self) -> Option<Handshake> {
        under_way(self.state)
    }

    pub closed spec fn well_formed(self) -> bool {
        self.state matches Some(h) ==> progress(h) is Some && began(h)
    }

    pub fn new(static_key: &[u8]) -> (r: Result<Self, PairingError>)
        requires
            static_key@.len() <= 32,
        ensures
            match r {
                Ok(i) => {
                    &&& i.well_formed()
                    &&& i.at() matches Some(h)
                    &&& h.messages == Seq::<Seq<u8>>::empty()
                    &&& genuine(h.messages)
                    &&& static_key@.len() == 32 ==> h.own_key == public_key(static_key@)
                },
                Err(_) => false,
            },
    {
        match snow_initiator(NOISE_PARAMS, static_key) {
            Ok(h) => Ok(Initiator { state: Some(h) }),
            Err(_) => Err(PairingError::Noise),
        }
    }

    /// The first frame: an ephemeral key. A handshake that failed cannot be
    /// taken up again.
    pub fn hello(&mut self) -> (r: Result<Vec<u8>, PairingError>)
        requires
            old(self).well_formed(),
        ensures
            final(self).well_formed(),
            match (old(self).at(), r) {
                (Some(before), Ok(f)) => {
                    let messages = before.messages.push(unframed(f@));
                    &&& before.messages.len() == 0
                    &&& f@ == framed(unframed(f@))
                    &&& unframed(f@).len() == 32
                    &&& final(self).at() == Some(Handshake { messages, ..before })
                    &&& genuine(before.messages) ==> genuine(messages)
                },
                (Some(_), Err(e)) => e == PairingError::Noise && final(self).at() is None,
                (None, Ok(_)) => false,
                (None, Err(e)) => e == PairingError::HandshakeDone && final(self).at() is None,
            },
    {
        match self.state.take() {
            None => Err(PairingError::HandshakeDone),
            Some(h0) => {
                let mut h = h0;
                match snow_write(&mut h) {
                    Err(_) => Err(PairingError::Noise),
                    Ok(m) => {
                        if m.len() == 32 {
                            let f = write_frame(&m);
                            proof {
                                lemma_unframed(m@);
                            }
                            self.state = Some(h);
                            f
                        } else {
                            Err(PairingError::Noise)
                        }
                    },
                }
            },
        }
    }

    /// Takes the second message; gives the third frame and the session. A
    /// message that a peer wrote in answer to the first is always taken.
    pub fn answer(&mut self, message: &[u8]) -> (r: Result<(Vec<u8>, NoiseSession), PairingError>)
        requires
            old(self).well_formed(),
        ensures
            final(self).well_formed(),
            final(self).at() is None,
            match (old(self).at(), r) {
                (Some(before), Ok((f, session))) => {
                    let replied = before.messages.push(message@);
                    let messages = replied.push(unframed(f@));
                    &&& before.messages.len() == 1
                    &&& f@ == framed(unframed(f@))
                    &&& unframed(f@).len() == 64
                    &&& session.well_formed()
                    &&& session.began_by(before.own_key, messages)
                    &&& genuine(replied) ==> genuine(messages)
                },
                (Some(before), Err(e)) => e == PairingError::Noise && !(before.messages.len() == 1
                    && genuine(before.messages.push(message@))),
                (None, Ok(_)) => false,
                (None, Err(e)) => e == PairingError::HandshakeDone,
            },
    {
        match self.state.take() {
            None => Err(PairingError::HandshakeDone),
            Some(h0) => {
                let mut h = h0;
                if snow_read(&mut h, message).is_err() {
                    return Err(PairingError::Noise);
                }
                match snow_write(&mut h) {
                    Err(_) => Err(PairingError::Noise),
                    Ok(m) => match write_frame(&m) {
                        Err(_) => Err(PairingError::Noise),
                        Ok(f) => match finalize(h) {
                            Ok(session) => {
                                proof {
                                    lemma_unframed(m@);
                                }
                                Ok((f, session))
                            },
                            Err(e) => Err(e),
                        },
                    },
                }
            },
        }
    }
}

impl Responder {
    /// The handshake; nothing once it is over, well or badly.
    pub closed spec fn at(self) -> Option<Handshake> {
        under_way(self.state)
    }

    pub closed spec fn well_formed(self) -> bool {
        self.state matches Some(h) ==> progress(h) is Some && !began(h)
    }

    pub fn new(static_key: &[u8]) -> (r: Result<Self, PairingError>)
        requires
            static_key@.len() <= 32,
        ensures
            match r {
                Ok(i) => {
                    &&& i.well_formed()
                    &&& i.at() matches Some(h)
                    &&& h.messages == Seq::<Seq<u8>>::empty()
                    &&& genuine(h.messages)
                    &&& static_key@.len() == 32 ==> h.own_key == public_key(static_key@)
                },
                Err(_) => false,
            },
    {
        match snow_responder(NOISE_PARAMS, static_key) {
            Ok(h) => Ok(Responder { state: Some(h) }),
            Err(_) => Err(PairingError::Noise),
        }
    }

    /// Takes the first message; gives the second frame.
    pub fn reply(&mut self, message: &[u8]) -> (r: Result<Vec<u8>, PairingError>)
        requires
            old(self).well_formed(),
        ensures
            final(self).well_formed(),
            match (old(self).at(), r) {
                (Some(before), Ok(f)) => {
                    let called = before.messages.push(message@);
                    let messages = called.push(unframed(f@));
                    &&& before.messages.len() == 0
                    &&& f@ == framed(unframed(f@))
                    &&& unframed(f@).len() == 96
                    &&& final(self).at() == Some(Handshake { messages, ..before })
                    &&& genuine(called) ==> genuine(messages)
                },
                (Some(_), Err(e)) => e == PairingError::Noise && final(self).at() is None,
                (None, Ok(_)) => false,
                (None, Err(e)) => e == PairingError::HandshakeDone && final(self).at() is None,
            },
    {
        match self.state.take() {
            None => Err(PairingError::HandshakeDone),
            Some(h0) => {
                let mut h = h0;
                if snow_read(&mut h, message).is_err() {
                    return Err(PairingError::Noise);
                }
                match snow_write(&mut h) {
                    Err(_) => Err(PairingError::Noise),
                    Ok(m) => match write_frame(&m) {
                        Err(_) => Err(PairingError::Noise),
                        Ok(f) => {
                            proof {
                                lemma_unframed(m@);
                            }
                            self.state = Some(h);
                            Ok(f)
                        },
                    },
                }
            },
        }
    }

    /// Takes the third message; gives the session. A message that the peer
    /// wrote in answer to the second is always taken.
    pub fn finish(&mut self, message: &[u8]) -> (r: Result<NoiseSession, PairingError>)
        requires
            old(self).well_formed(),
        ensures
            final(self).well_formed(),
            final(self).at() is None,
            match (old(self).at(), r) {
                (Some(before), Ok(session)) => {
                    &&& before.messages.len() == 2
                    &&& session.well_formed()
                    &&& session.answered_by(before.own_key, before.messages.push(message@))
                },
                (Some(before), Err(e)) => e == PairingError::Noise && !(before.messages.len() == 2
                    && genuine(before.messages.push(message@))),
                (None, Ok(_)) => false,
                (None, Err(e)) => e == PairingError::HandshakeDone,
            },
    {
        match self.state.take() {
            None => Err(PairingError::HandshakeDone),
            Some(h0) => {
                let mut h = h0;
                if snow_read(&mut h, message).is_err() {
                    return Err(PairingError::Noise);
                }
                finalize(h)
            },
        }
    }
}

/// The encryption of a session: each message carries its number, and no number
/// is taken twice.
pub struct EncryptedSession {
    transport: snow::StatelessTransportState,
    next_send_nonce: u64,
    replay: ReplayWindow,
}

/// What an [`EncryptedSession`] stands for.
pub struct Session {
    pub sending_key: Seq<u8>,
    pub receiving_key: Seq<u8>,
    /// The number of the next message that is sent.
    pub next: u64,
    pub window: Window,
}

impl View for EncryptedSession {
    type V = Session;

    closed spec fn view(&self) -> Session {
        Session {
            sending_key: sending_key(self.transport),
            receiving_key: receiving_key(self.transport),
            next: self.next_send_nonce,
            window: self.replay@,
        }
    }
}

/// A message on the wire: eight bytes for its number, and the encrypted
/// message.
pub open spec fn wire(nonce: u64, cipher: Seq<u8>) -> Seq<u8> {
    bytes::be(nonce as nat, 8) + cipher
}

/// The number of a message on the wire.
pub open spec fn wire_nonce(frame: Seq<u8>) -> u64 {
    bytes::value(frame.subrange(0, 8)) as u64
}

/// The encrypted message on the wire.
pub open spec fn wire_cipher(frame: Seq<u8>) -> Seq<u8> {
    frame.subrange(8, frame.len() as int)
}

/// What a frame brings: its message, or why it is refused. A frame without a
/// number, then a number that came before, then a message that does not
/// decrypt.
pub open spec fn received(s: Session, frame: Seq<u8>) -> Result<Seq<u8>, PairingError> {
    if frame.len() < 8 {
        Err(PairingError::FrameTooShort)
    } else if !s.window.fresh.contains(wire_nonce(frame)) {
        Err(PairingError::Replay { nonce: wire_nonce(frame) })
    } else if wire_cipher(frame).len() > MAX_MESSAGE || wire_nonce(frame) == u64::MAX {
        Err(PairingError::Noise)
    } else {
        match opened(s.receiving_key, wire_nonce(frame), wire_cipher(frame)) {
            Some(plain) => Ok(plain),
            None => Err(PairingError::Noise),
        }
    }
}

/// The session after a frame: its number is used up even where the message
/// does not decrypt.
pub open spec fn after_frame(s: Session, frame: Seq<u8>) -> Session {
    if frame.len() < 8 {
        s
    } else {
        Session { window: recorded(s.window, wire_nonce(frame)), ..s }
    }
}

impl EncryptedSession {
    pub closed spec fn well_formed(self) -> bool {
        transport_keys(self.transport) is Some
    }

    /// The encryption of a new session.
    pub fn from(session: NoiseSession) -> (r: Self)
        requires
            session.well_formed(),
        ensures
            r.well_formed(),
            r@.sending_key == sending_key(session.transport),
            r@.receiving_key == receiving_key(session.transport),
            r@.next == 0,
            r@.window.highest == 0,
            r@.window.fresh == Set::<u64>::full(),
    {
        EncryptedSession {
            transport: session.transport,
            next_send_nonce: 0,
            replay: ReplayWindow::default(),
        }
    }

    /// Encrypts a message under the next number.
    pub fn seal(&mut self, plaintext: &[u8]) -> (r: Result<Vec<u8>, PairingError>)
        requires
            old(self).well_formed(),
            plaintext@.len() + TAG_LEN <= usize::MAX,
        ensures
            final(self).well_formed(),
            final(self)@ == (Session { next: old(self)@.next.wrapping_add(1), ..old(self)@ }),
            match r {
                Ok(f) => {
                    let cipher = sealed(old(self)@.sending_key, old(self)@.next, plaintext@);
                    &&& sealable(plaintext@.len(), old(self)@.next)
                    &&& f@ == wire(old(self)@.next, cipher)
                    &&& cipher.len() == plaintext@.len() + TAG_LEN
                    &&& opened(old(self)@.sending_key, old(self)@.next, cipher) == Some(
                        plaintext@,
                    )
                },
                Err(e) => !sealable(plaintext@.len(), old(self)@.next) && e == PairingError::Noise,
            },
    {
        let nonce: u64 = self.next_send_nonce;
        self.next_send_nonce = nonce.wrapping_add(1);
        match snow_seal(&self.transport, nonce, plaintext) {
            Ok(cipher) => {
                let mut f: Vec<u8> = Vec::new();
                push_be(&mut f, nonce as u128, 8);
                push_all(&mut f, &cipher);
                assert(f@ =~= wire(nonce, cipher@));
                Ok(f)
            },
            Err(_) => Err(PairingError::Noise),
        }
    }

    /// Decrypts a frame, unless its number came before.
    pub fn open(&mut self, frame: &[u8]) -> (r: Result<Vec<u8>, PairingError>)
        requires
            old(self).well_formed(),
        ensures
            final(self).well_formed(),
            final(self)@ == after_frame(old(self)@, frame@),
            match r {
                Ok(plain) => received(old(self)@, frame@) == Ok::<Seq<u8>, PairingError>(plain@),
                Err(e) => received(old(self)@, frame@) == Err::<Seq<u8>, PairingError>(e),
            },
    {
        if frame.len() < 8 {
            return Err(PairingError::FrameTooShort);
        }
        let head = part(frame, 0, 8);
        proof {
            bytes::numbers_keep_bytes(head@);
            bytes::lemma_limits();
        }
        let nonce: u64 = read_be(&head) as u64;
        if !self.replay.check_and_record(nonce) {
            return Err(PairingError::Replay { nonce });
        }
        let cipher = part(frame, 8, frame.len());
        match snow_open(&self.transport, nonce, &cipher) {
            Ok(plain) => Ok(plain),
            Err(_) => Err(PairingError::Noise),
        }
    }
}

/// What one side has sealed the other side opens, if it receives under the key
/// that the first side sends under, and the number is fresh.
pub proof fn a_sealed_message_is_opened(
    sender: Session,
    receiver: Session,
    plain: Seq<u8>,
    cipher: Seq<u8>,
)
    requires
        sender.sending_key == receiver.receiving_key,
        sealable(plain.len(), sender.next),
        cipher.len() == plain.len() + TAG_LEN,
        opened(sender.sending_key, sender.next, cipher) == Some(plain),
        receiver.window.fresh.contains(sender.next),
    ensures
        received(receiver, wire(sender.next, cipher)) == Ok::<Seq<u8>, PairingError>(plain),
{
    lemma_wire(sender.next, cipher);
}

proof fn lemma_wire(nonce: u64, cipher: Seq<u8>)
    ensures
        wire(nonce, cipher).len() == 8 + cipher.len(),
        wire_nonce(wire(nonce, cipher)) == nonce,
        wire_cipher(wire(nonce, cipher)) == cipher,
{
    bytes::lemma_limits();
    bytes::bytes_keep_numbers(nonce as nat, 8);
    assert(wire(nonce, cipher).subrange(0, 8) =~= bytes::be(nonce as nat, 8));
    assert(wire_cipher(wire(nonce, cipher)) =~= cipher);
}

/// A frame that was opened, or failed to decrypt, is refused when it comes
/// again.
pub proof fn a_replayed_frame_is_refused(s: Session, frame: Seq<u8>)
    requires
        frame.len() >= 8,
    ensures
        received(after_frame(s, frame), frame) == Err::<Seq<u8>, PairingError>(
            PairingError::Replay { nonce: wire_nonce(frame) },
        ),
{
}

/// What one side seals the other side opens, once and not again; messages of up to
/// 65519 bytes can be sealed.
pub proof fn a_message_is_opened_once(
    a: &mut EncryptedSession,
    b: (&mut EncryptedSession, &mut EncryptedSession),
    plain: &[u8],
    sealed_frame: Result<Vec<u8>, PairingError>,
    frame: &[u8],
    r: (Result<Vec<u8>, PairingError>, Result<Vec<u8>, PairingError>),
)
    requires
        call_ensures(EncryptedSession::seal, (a, plain), sealed_frame),
        old(a)@.next < u64::MAX,
        plain@.len() <= 65_519,
        sealed_frame matches Ok(f) && f@ == frame@,
        call_ensures(EncryptedSession::open, (b.0, frame), r.0),
        *old(b.1) == *final(b.0),
        call_ensures(EncryptedSession::open, (b.1, frame), r.1),
        old(b.0)@.receiving_key == old(a)@.sending_key,
        old(b.0)@.window.fresh.contains(old(a)@.next),
    ensures
        r.0 matches Ok(p) && p@ == plain@,
        r.1 == Err::<Vec<u8>, PairingError>(PairingError::Replay { nonce: old(a)@.next }),
        frame@.len() == 8 + plain@.len() + 16,
        final(a)@.next == old(a)@.next + 1,
{
    let cipher = sealed(old(a)@.sending_key, old(a)@.next, plain@);
    a_sealed_message_is_opened(old(a)@, old(b.0)@, plain@, cipher);
    lemma_wire(old(a)@.next, cipher);
    a_replayed_frame_is_refused(old(b.0)@, frame@);
}

/// Every message that fits can be sealed, and none that does not.
pub proof fn messages_that_fit_are_sealed(
    a: &mut EncryptedSession,
    plain: &[u8],
    r: Result<Vec<u8>, PairingError>,
)
    requires
        call_ensures(EncryptedSession::seal, (a, plain), r),
        old(a)@.next < u64::MAX,
    ensures
        r is Ok <==> plain@.len() <= 65_519,
{
}

/// A number is taken once. A later one is always taken; an earlier one is taken if
/// it did not come yet and lies less than 128 behind the highest.
pub proof fn numbers_are_taken_once(
    w: (&mut ReplayWindow, &mut ReplayWindow),
    n: (u64, u64),
    r: (bool, bool),
)
    requires
        old(w.0)@.fresh == Set::<u64>::full(),
        old(w.0)@.highest == 0,
        call_ensures(ReplayWindow::check_and_record, (w.0, n.0), r.0),
        *old(w.1) == *final(w.0),
        call_ensures(ReplayWindow::check_and_record, (w.1, n.1), r.1),
    ensures
        r.0,
        n.1 == n.0 ==> !r.1,
        n.1 > n.0 ==> r.1,
        n.1 < n.0 ==> (r.1 <==> n.0 - n.1 < 128),
{
}

/// A frame is read back as it was written, whatever follows it.
pub proof fn a_written_frame_is_read(
    message: &[u8],
    frame: Vec<u8>,
    rest: Seq<u8>,
    input: &[u8],
    r: Option<(Vec<u8>, usize)>,
)
    requires
        call_ensures(write_frame, (message,), Ok::<Vec<u8>, PairingError>(frame)),
        input@ == frame@ + rest,
        call_ensures(read_frame, (input,), r),
    ensures
        r matches Some((m, used)) && m@ == message@ && used == frame@.len(),
        frame@.len() == 2 + message@.len(),
{
    frames_are_read_back(message@, rest);
    bytes::lemma_limits();
    bytes::lemma_be_len(message@.len(), 2);
    bytes::bytes_keep_numbers(message@.len(), 2);
    assert(input@.subrange(0, 2) =~= bytes::be(message@.len(), 2));
    if r is Some {
        let (m, used) = r->0;
        bytes::lemma_be_len(m@.len(), 2);
        bytes::bytes_keep_numbers(m@.len(), 2);
        assert(framed(m@).len() == used);
        assert(framed(m@).subrange(0, 2) =~= bytes::be(m@.len(), 2));
        assert(input@.subrange(0, used as int).subrange(0, 2) =~= input@.subrange(0, 2));
        assert(m@.len() == message@.len());
        assert(framed(m@).subrange(2, used as int) =~= m@);
        assert(input@.subrange(0, used as int).subrange(2, used as int) =~= message@);
    }
}

} // verus!
