//! The two parties of the transfer as state machines: the sender goes from
//! setup to transmission, the receiver from key selection to decryption.

use crate::crypto::{
    bytes_result, decrypt_payload, decrypts_to, derive_symmetric_key, encrypt_payload,
    sealed_payload, symmetric_key, hkdf_sha256, chacha20poly1305_open, MAX_PLAINTEXT_LEN, NONCE_LEN, TAG_LEN,
};
use crate::errors::OtError;
use crate::group::{ec_is_identity, ec_mul, ec_mul_base, ec_scalar_decodes, ec_sub, EcPoint, SecretScalar};
use vstd::prelude::*;
use vstd::string::StringSliceAdditionalSpecFns;

verus! {

/// The pair of payloads the sender transmits: `c0` seals the first message, `c1` the second.
pub struct CiphertextPair {
    pub c0: Vec<u8>,
    pub c1: Vec<u8>,
}

// =========================================================================
// SENDER
// =========================================================================

/// The sender after setup: its secret `c` and the public parameter `C = c * G`.
pub struct SenderSetup {
    pub secret_c: SecretScalar,
    pub public_c: EcPoint,
}

/// What a sender ready to transmit holds, as values.
pub struct SenderView {
    pub secret_c: Seq<u8>,
    pub public_c: Seq<u8>,
    pub pk0: Seq<u8>,
}

/// The sender after it has received the receiver's blinded key `PK_0`.
pub struct SenderTransmit {
    secret_c: SecretScalar,
    public_c: EcPoint,
    pk0: EcPoint,
}

impl View for SenderTransmit {
    type V = SenderView;

    closed spec fn view(&self) -> SenderView {
        SenderView { secret_c: self.secret_c@, public_c: self.public_c@, pk0: self.pk0@ }
    }
}

/// The point from which the sender derives the key of message `index`:
/// `c * PK_0` for the first, `c * (C - PK_0)` for the second.
pub open spec fn sender_point(t: SenderView, index: bool) -> Seq<u8> {
    if index {
        ec_mul(ec_sub(t.public_c, t.pk0), t.secret_c)
    } else {
        ec_mul(t.pk0, t.secret_c)
    }
}

/// The Diffie-Hellman agreement at the chosen index: when `PK_0 = x * G` the first point is
/// `x * (c * G)`, and when `PK_0 = C - x * G` the second one is.
pub open spec fn dh_agreement(t: SenderView) -> bool {
    &&& forall|x: Seq<u8>|
        ec_scalar_decodes(x) && t.pk0 == #[trigger] ec_mul_base(x) ==> sender_point(t, false)
            == ec_mul(ec_mul_base(t.secret_c), x)
    &&& forall|x: Seq<u8>|
        ec_scalar_decodes(x) && t.pk0 == ec_sub(t.public_c, #[trigger] ec_mul_base(x))
            ==> sender_point(t, true) == ec_mul(ec_mul_base(t.secret_c), x)
}

/// `c0` and `c1` are what transmitting `m0` and `m1` from `t` produced: each message sealed
/// under the key of its index, with the agreement above.
pub open spec fn transmitted(t: SenderView, m0: Seq<u8>, m1: Seq<u8>, c0: Seq<u8>, c1: Seq<u8>) -> bool {
    &&& dh_agreement(t)
    &&& sealed_payload(symmetric_key(sender_point(t, false)), c0, m0)
    &&& sealed_payload(symmetric_key(sender_point(t, true)), c1, m1)
}

impl SenderSetup {
    /// Step 1: samples the random secret `c` and computes `C = c * G`.
    pub fn new(rng: &mut rand::rngs::OsRng) -> (res: SenderSetup)
        ensures
            ec_scalar_decodes(res.secret_c@),
            res.public_c@ == ec_mul_base(res.secret_c@),
            !ec_is_identity(res.public_c@),
    {
        SenderSetup::from_secret(SecretScalar::random(rng))
    }

    /// Step 1 for a given secret `c`: computes `C = c * G`.
    pub fn from_secret(secret_c: SecretScalar) -> (res: SenderSetup)
        ensures
            res.secret_c@ == secret_c@,
            res.public_c@ == ec_mul_base(secret_c@),
    {
        let public_c = EcPoint::mul_base(&secret_c);
        SenderSetup { secret_c, public_c }
    }

    /// Step 2: receives the receiver's `PK_0` and moves to the transmission phase; the
    /// identity point is refused.
    pub fn transition(self, pk0: EcPoint) -> (res: Result<SenderTransmit, OtError>)
        ensures
            ec_is_identity(pk0@) <==> res is Err,
            res matches Err(e) ==> e == OtError::IdentityPointNotAllowed,
            res matches Ok(t) ==> t@ == (SenderView {
                secret_c: self.secret_c@,
                public_c: self.public_c@,
                pk0: pk0@,
            }),
    {
        if pk0.is_identity() {
            return Err(OtError::IdentityPointNotAllowed);
        }
        Ok(SenderTransmit { secret_c: self.secret_c, public_c: self.public_c, pk0 })
    }
}

impl SenderTransmit {
    /// Step 4: derives `K_0` from `c * PK_0` and `K_1` from `c * (C - PK_0)`, and encrypts
    /// `m0` under `K_0` and `m1` under `K_1`.
    pub fn transmit(self, m0: &[u8], m1: &[u8]) -> (res: Result<CiphertextPair, OtError>)
        ensures
            res is Ok <==> (m0@.len() < MAX_PLAINTEXT_LEN && m1@.len() < MAX_PLAINTEXT_LEN),
            res matches Err(e) ==> e == OtError::EncryptionFailed,
            res matches Ok(pair) ==> transmitted(self@, m0@, m1@, pair.c0@, pair.c1@),
            res matches Ok(pair) ==> pair.c0@.len() == NONCE_LEN + m0@.len() + TAG_LEN
                && pair.c1@.len() == NONCE_LEN + m1@.len() + TAG_LEN,
    {
        let point_0 = self.pk0.mul(&self.secret_c);
        let pk1 = self.public_c.sub(&self.pk0);
        let point_1 = pk1.mul(&self.secret_c);
        assert(dh_agreement(self@));
        let k0 = match derive_symmetric_key(&point_0) {
            Ok(k) => k,
            Err(e) => return Err(e),
        };
        let k1 = match derive_symmetric_key(&point_1) {
            Ok(k) => k,
            Err(e) => return Err(e),
        };
        let c0 = match encrypt_payload(&k0, m0) {
            Ok(c) => c,
            Err(e) => return Err(e),
        };
        let c1 = match encrypt_payload(&k1, m1) {
            Ok(c) => c,
            Err(e) => return Err(e),
        };
        Ok(CiphertextPair { c0, c1 })
    }
}

// =========================================================================
// RECEIVER
// =========================================================================

/// What a receiver holds, as values.
pub struct ReceiverView {
    pub choice: bool,
    pub secret_x: Seq<u8>,
    pub sender_c: Seq<u8>,
}

/// The receiver after key selection: its choice bit, its secret `x` and the sender's `C`.
pub struct ReceiverKeys {
    choice: bool,
    secret_x: SecretScalar,
    sender_c: EcPoint,
}

impl View for ReceiverKeys {
    type V = ReceiverView;

    closed spec fn view(&self) -> ReceiverView {
        ReceiverView { choice: self.choice, secret_x: self.secret_x@, sender_c: self.sender_c@ }
    }
}

/// The blinded key the receiver sends: `x * G` for choice 0, `C - x * G` for choice 1.
pub open spec fn receiver_pk0(r: ReceiverView) -> Seq<u8> {
    if r.choice {
        ec_sub(r.sender_c, ec_mul_base(r.secret_x))
    } else {
        ec_mul_base(r.secret_x)
    }
}

/// The point from which the receiver derives its key: `x * C`.
pub open spec fn receiver_point(r: ReceiverView) -> Seq<u8> {
    ec_mul(r.sender_c, r.secret_x)
}

/// The payload of a pair that a choice bit selects.
pub open spec fn chosen_payload(choice: bool, c0: Seq<u8>, c1: Seq<u8>) -> Seq<u8> {
    if choice {
        c1
    } else {
        c0
    }
}

impl ReceiverKeys {
    /// Step 3: receives the sender's `C`, samples the secret `x` and returns the receiver
    /// state with the blinded key `PK_0` to send; the identity point is refused.
    pub fn new(rng: &mut rand::rngs::OsRng, choice: bool, sender_c: EcPoint) -> (res: Result<
        (ReceiverKeys, EcPoint),
        OtError,
    >)
        ensures
            ec_is_identity(sender_c@) <==> res is Err,
            res matches Err(e) ==> e == OtError::IdentityPointNotAllowed,
            res matches Ok((keys, pk0)) ==> {
                &&& keys@.choice == choice
                &&& keys@.sender_c == sender_c@
                &&& ec_scalar_decodes(keys@.secret_x)
                &&& !ec_is_identity(ec_mul_base(keys@.secret_x))
                &&& pk0@ == receiver_pk0(keys@)
            },
    {
        let secret_x = SecretScalar::random(rng);
        ReceiverKeys::from_secret(secret_x, choice, sender_c)
    }

    /// Step 3 for a given secret `x`.
    pub fn from_secret(secret_x: SecretScalar, choice: bool, sender_c: EcPoint) -> (res: Result<
        (ReceiverKeys, EcPoint),
        OtError,
    >)
        ensures
            ec_is_identity(sender_c@) <==> res is Err,
            res matches Err(e) ==> e == OtError::IdentityPointNotAllowed,
            res matches Ok((keys, pk0)) ==> {
                &&& keys@ == (ReceiverView {
                    choice,
                    secret_x: secret_x@,
                    sender_c: sender_c@,
                })
                &&& pk0@ == receiver_pk0(keys@)
            },
    {
        if sender_c.is_identity() {
            return Err(OtError::IdentityPointNotAllowed);
        }
        let g_to_x = EcPoint::mul_base(&secret_x);
        let pk0 = if choice {
            sender_c.sub(&g_to_x)
        } else {
            g_to_x
        };
        Ok((ReceiverKeys { choice, secret_x, sender_c }, pk0))
    }

    /// Step 5: derives the key from `x * C` and decrypts the payload of the chosen index.
    pub fn decrypt(self, ciphertexts: CiphertextPair) -> (res: Result<Vec<u8>, OtError>)
        ensures
            decrypts_to(
                symmetric_key(receiver_point(self@)),
                chosen_payload(self@.choice, ciphertexts.c0@, ciphertexts.c1@),
                bytes_result(res),
            ),
            (if self@.choice { ciphertexts.c1@ } else { ciphertexts.c0@ }).len() < 12 <==> res
                == Err::<Vec<u8>, OtError>(OtError::PayloadTooShort),
            ({
                let payload = if self@.choice { ciphertexts.c1@ } else { ciphertexts.c0@ };
                let key = hkdf_sha256(
                    ec_mul(self@.sender_c, self@.secret_x),
                    "Bellare-Micali-1-out-of-2-OT-v1-SymmetricKey".spec_bytes(),
                );
                payload.len() >= 12 ==> match chacha20poly1305_open(
                    key,
                    payload.take(12),
                    payload.skip(12),
                ) {
                    Some(m) => res matches Ok(p) && p@ == m,
                    None => res == Err::<Vec<u8>, OtError>(OtError::InvalidMacTag),
                }
            }),
    {
        let point_r = self.sender_c.mul(&self.secret_x);
        let target_key = match derive_symmetric_key(&point_r) {
            Ok(k) => k,
            Err(e) => return Err(e),
        };
        if self.choice {
            decrypt_payload(&target_key, ciphertexts.c1.as_slice())
        } else {
            decrypt_payload(&target_key, ciphertexts.c0.as_slice())
        }
    }
}

// =========================================================================
// LAWS
// =========================================================================

/// The keys match at the chosen index: when the receiver's `PK_0` reached an honestly set-up
/// sender (`C = c * G`) whose transmission gave the agreement, the sender's point for the
/// chosen message is the receiver's `x * C`.
pub proof fn lemma_shared_point_at_choice(sender: SenderView, receiver: ReceiverView)
    requires
        sender.public_c == ec_mul_base(sender.secret_c),
        ec_scalar_decodes(receiver.secret_x),
        receiver.sender_c == sender.public_c,
        sender.pk0 == receiver_pk0(receiver),
        dh_agreement(sender),
    ensures
        sender_point(sender, receiver.choice) == receiver_point(receiver),
{
    // instantiate the agreement at the receiver's secret
    let x = receiver.secret_x;
    assert(ec_mul_base(x) == ec_mul_base(x));
}

/// The protocol's values in terms of the group operations: the sender's points are
/// `c * PK_0` and `c * (C - PK_0)`, the receiver's point is `x * C`, its blinded key is
/// `x * G` or `C - x * G` by its choice, and the choice selects `c0` or `c1`.
pub proof fn lemma_protocol_values(t: SenderView, r: ReceiverView, c0: Seq<u8>, c1: Seq<u8>)
    ensures
        sender_point(t, false) == ec_mul(t.pk0, t.secret_c),
        sender_point(t, true) == ec_mul(ec_sub(t.public_c, t.pk0), t.secret_c),
        receiver_point(r) == ec_mul(r.sender_c, r.secret_x),
        !r.choice ==> receiver_pk0(r) == ec_mul_base(r.secret_x),
        r.choice ==> receiver_pk0(r) == ec_sub(r.sender_c, ec_mul_base(r.secret_x)),
        chosen_payload(false, c0, c1) == c0,
        chosen_payload(true, c0, c1) == c1,
{
}

/// Correctness of the transfer: decrypting the pair that the sender transmitted for the
/// receiver's `PK_0` yields exactly the message the receiver chose.
pub proof fn lemma_receiver_obtains_chosen_message(
    sender: SenderView,
    receiver: ReceiverView,
    m0: Seq<u8>,
    m1: Seq<u8>,
    c0: Seq<u8>,
    c1: Seq<u8>,
    outcome: Result<Seq<u8>, OtError>,
)
    requires
        sender.public_c == ec_mul_base(sender.secret_c),
        ec_scalar_decodes(receiver.secret_x),
        receiver.sender_c == sender.public_c,
        sender.pk0 == receiver_pk0(receiver),
        transmitted(sender, m0, m1, c0, c1),
        decrypts_to(symmetric_key(receiver_point(receiver)), chosen_payload(receiver.choice, c0, c1), outcome),
    ensures
        outcome == Ok::<Seq<u8>, OtError>(if receiver.choice { m1 } else { m0 }),
{
    lemma_shared_point_at_choice(sender, receiver);
    let key = symmetric_key(receiver_point(receiver));
    if receiver.choice {
        assert(sealed_payload(key, c1, m1));
    } else {
        assert(sealed_payload(key, c0, m0));
    }
}

} // verus!
