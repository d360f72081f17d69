//! The secp256k1 group as the protocol sees it: points held by their
//! compressed SEC1 encoding and scalars by their big-endian bytes. The group
//! arithmetic itself is done by `generic_ec`.

use generic_ec::curves::Secp256k1;
use vstd::prelude::*;

verus! {

/// Decodes `bytes` with `generic_ec::Point::<Secp256k1>::from_bytes` and, when
/// that succeeds, encodes the point again in compressed form.
pub uninterp spec fn ec_compress(bytes: Seq<u8>) -> Option<Seq<u8>>;

/// Whether `bytes` encode the identity: of the encodings that decode, exactly the all-zero
/// byte strings do (`generic_ec` reads any all-zero string as the point at infinity, and a
/// SEC1 tag of a finite point is never zero).
pub open spec fn ec_is_identity(bytes: Seq<u8>) -> bool {
    forall|i: int| 0 <= i < bytes.len() ==> bytes[i] == 0u8
}

/// The compressed encoding of the identity point: 33 zero bytes.
pub open spec fn identity_encoding() -> Seq<u8> {
    Seq::new(33, |i: int| 0u8)
}

/// The compressed encoding of `scalar * point` (`Point * Scalar` in `generic_ec`).
pub uninterp spec fn ec_mul(point: Seq<u8>, scalar: Seq<u8>) -> Seq<u8>;

/// The compressed encoding of `scalar * G`, `G` the curve generator.
pub uninterp spec fn ec_mul_base(scalar: Seq<u8>) -> Seq<u8>;

/// The compressed encoding of `a - b` (`Point - Point` in `generic_ec`).
pub uninterp spec fn ec_sub(a: Seq<u8>, b: Seq<u8>) -> Seq<u8>;

/// The natural number that `bytes` denote in big-endian order.
pub open spec fn be_value(bytes: Seq<u8>) -> nat
    decreases bytes.len(),
{
    if bytes.len() == 0 {
        0
    } else {
        be_value(bytes.drop_last()) * 256 + bytes.last() as nat
    }
}

/// The order of the secp256k1 group.
pub open spec fn secp256k1_order() -> nat {
    0xFFFFFFFFFFFFFFFFFFFFFFFFFFFFFFFEBAAEDCE6AF48A03BBFD25E8CD0364141nat
}

/// Whether `Scalar::<Secp256k1>::from_be_bytes(scalar)` succeeds: at most 32 bytes, read
/// big-endian, denoting a value below the group order.
pub open spec fn ec_scalar_decodes(scalar: Seq<u8>) -> bool {
    scalar.len() <= 32 && be_value(scalar) < secp256k1_order()
}

/// A byte string is a canonical point when it is the compressed encoding of a
/// point, i.e. decoding and encoding it again gives it back.
pub open spec fn is_canonical_point(bytes: Seq<u8>) -> bool {
    ec_compress(bytes) == Some(bytes)
}

/// Decodes a point (`Point::from_bytes`) and encodes it compressed (`Point::to_bytes(true)`).
/// Claims: the result is `ec_compress` of the input, `None` exactly when decoding fails, an
/// encoding produced by `to_bytes` decodes back to the same encoding, and an all-zero input
/// decodes to the identity, whose compressed encoding is 33 zero bytes.
#[verifier::external_body]
fn point_compress(bytes: &[u8]) -> (res: Option<[u8; 33]>)
    ensures
        match res {
            Some(c) => ec_compress(bytes@) == Some(c@) && is_canonical_point(c@),
            None => ec_compress(bytes@) is None,
        },
        ec_is_identity(bytes@) ==> res is Some && res->Some_0@ == identity_encoding(),
{
    match generic_ec::Point::<Secp256k1>::from_bytes(bytes) {
        Ok(p) => p.to_bytes(true).as_bytes().try_into().ok(),
        Err(_) => None,
    }
}

/// Decodes a point and asks `Point::is_zero`. Claims: `None` exactly when decoding fails,
/// otherwise the answer is `ec_is_identity` of the input.
#[verifier::external_body]
fn point_is_zero(bytes: &[u8; 33]) -> (res: Option<bool>)
    ensures
        res is Some <==> ec_compress(bytes@) is Some,
        res matches Some(z) ==> z == ec_is_identity(bytes@),
{
    match generic_ec::Point::<Secp256k1>::from_bytes(bytes) {
        Ok(p) => Some(p.is_zero()),
        Err(_) => None,
    }
}

/// Computes `point * scalar` with `generic_ec` and encodes it compressed. Claims: `Some`
/// exactly when both decode, the result is `ec_mul` of the inputs and canonical, and the
/// group law `scalar * (x * G) == x * (scalar * G)`.
#[verifier::external_body]
fn point_mul(point: &[u8; 33], scalar: &[u8]) -> (res: Option<[u8; 33]>)
    ensures
        res is Some <==> (ec_compress(point@) is Some && ec_scalar_decodes(scalar@)),
        res matches Some(q) ==> {
            &&& q@ == ec_mul(point@, scalar@)
            &&& is_canonical_point(q@)
            &&& forall|x: Seq<u8>|
                ec_scalar_decodes(x) && point@ == #[trigger] ec_mul_base(x) ==> q@ == ec_mul(
                    ec_mul_base(scalar@),
                    x,
                )
        },
{
    let p = generic_ec::Point::<Secp256k1>::from_bytes(point).ok()?;
    let s = generic_ec::Scalar::<Secp256k1>::from_be_bytes(scalar).ok()?;
    (p * s).to_bytes(true).as_bytes().try_into().ok()
}

/// Computes `scalar * G` with `generic_ec` and encodes it compressed. Claims: `Some`
/// exactly when the scalar decodes, and the result is `ec_mul_base` of it and canonical.
#[verifier::external_body]
fn point_mul_base(scalar: &[u8]) -> (res: Option<[u8; 33]>)
    ensures
        res is Some <==> ec_scalar_decodes(scalar@),
        res matches Some(q) ==> q@ == ec_mul_base(scalar@) && is_canonical_point(q@),
{
    let s = generic_ec::Scalar::<Secp256k1>::from_be_bytes(scalar).ok()?;
    (generic_ec::Point::<Secp256k1>::generator() * s).to_bytes(true).as_bytes().try_into().ok()
}

/// Computes `a - b` with `generic_ec` and encodes it compressed. Claims: `Some` exactly when
/// both decode, the result is `ec_sub` of the inputs and canonical, and the group law
/// `a - (a - x * G) == x * G`.
#[verifier::external_body]
fn point_sub(a: &[u8; 33], b: &[u8; 33]) -> (res: Option<[u8; 33]>)
    ensures
        res is Some <==> (ec_compress(a@) is Some && ec_compress(b@) is Some),
        res matches Some(d) ==> {
            &&& d@ == ec_sub(a@, b@)
            &&& is_canonical_point(d@)
            &&& forall|x: Seq<u8>|
                ec_scalar_decodes(x) && b@ == ec_sub(a@, #[trigger] ec_mul_base(x)) ==> d@
                    == ec_mul_base(x)
        },
{
    let p = generic_ec::Point::<Secp256k1>::from_bytes(a).ok()?;
    let q = generic_ec::Point::<Secp256k1>::from_bytes(b).ok()?;
    (p - q).to_bytes(true).as_bytes().try_into().ok()
}

/// Asks whether `Scalar::<Secp256k1>::from_be_bytes` accepts the bytes. Claims: the answer
/// is `ec_scalar_decodes` of them (it left-pads to 32 bytes and refuses values not below the
/// order).
#[verifier::external_body]
fn scalar_decodes(bytes: &[u8]) -> (res: bool)
    ensures
        res == ec_scalar_decodes(bytes@),
{
    generic_ec::Scalar::<Secp256k1>::from_be_bytes(bytes).is_ok()
}

/// Declares `rand::rngs::OsRng`, the operating system's random source.
#[verifier::external_type_specification]
#[verifier::external_body]
pub struct ExOsRng(rand::rngs::OsRng);

/// Samples `generic_ec::SecretScalar::<Secp256k1>::random` and returns its big-endian
/// bytes. Claims of every outcome: the bytes decode as a scalar, and the scalar is nonzero
/// (`Scalar::random` samples a `NonZero` scalar), so its multiple of `G` is not the identity.
#[verifier::external_body]
fn random_scalar(rng: &mut rand::rngs::OsRng) -> (res: Vec<u8>)
    ensures
        ec_scalar_decodes(res@),
        !ec_is_identity(ec_mul_base(res@)),
{
    let s = generic_ec::SecretScalar::<Secp256k1>::random(rng);
    s.as_ref().to_be_bytes().as_bytes().to_vec()
}

/// A point of secp256k1, held by its compressed encoding.
#[derive(Clone, Copy)]
pub struct EcPoint {
    bytes: [u8; 33],
}

impl View for EcPoint {
    type V = Seq<u8>;

    closed spec fn view(&self) -> Seq<u8> {
        self.bytes@
    }
}

impl EcPoint {
    /// Every point is held by its canonical encoding.
    #[verifier::type_invariant]
    pub(crate) open spec fn inv(self) -> bool {
        is_canonical_point(self@)
    }

    /// Reads a point from any encoding `generic_ec` accepts, compressed or not.
    pub fn from_bytes(bytes: &[u8]) -> (res: Result<EcPoint, crate::errors::OtError>)
        ensures
            match ec_compress(bytes@) {
                Some(c) => res matches Ok(p) && p@ == c,
                None => res == Err::<EcPoint, crate::errors::OtError>(
                    crate::errors::OtError::InvalidPoint,
                ),
            },
            ec_is_identity(bytes@) ==> (res matches Ok(p) && p@ == identity_encoding()),
    {
        match point_compress(bytes) {
            Some(c) => Ok(EcPoint { bytes: c }),
            None => Err(crate::errors::OtError::InvalidPoint),
        }
    }

    /// The identity point (the point at infinity).
    pub fn identity() -> (res: EcPoint)
        ensures
            res@ == identity_encoding(),
            ec_is_identity(res@),
    {
        let zeros = [0u8; 33];
        match point_compress(zeros.as_slice()) {
            Some(c) => EcPoint { bytes: c },
            // unreachable: all-zero bytes decode to the identity
            None => EcPoint { bytes: zeros },
        }
    }

    /// The compressed encoding of the point.
    pub fn to_bytes(&self) -> (res: Vec<u8>)
        ensures
            res@ == self@,
            is_canonical_point(res@),
    {
        proof {
            use_type_invariant(self);
        }
        let mut out: Vec<u8> = Vec::new();
        let mut i: usize = 0;
        while i < 33
            invariant
                i <= 33,
                out@ == self.bytes@.take(i as int),
            decreases 33 - i,
        {
            out.push(self.bytes[i]);
            i = i + 1;
        }
        proof {
            assert(self.bytes@.take(33) =~= self.bytes@);
        }
        out
    }

    /// Whether this is the identity point.
    pub fn is_identity(&self) -> (res: bool)
        ensures
            res == ec_is_identity(self@),
    {
        proof {
            use_type_invariant(self);
        }
        match point_is_zero(&self.bytes) {
            Some(z) => z,
            // unreachable: a held point always decodes
            None => false,
        }
    }

    /// `scalar * G`.
    pub fn mul_base(scalar: &SecretScalar) -> (res: EcPoint)
        ensures
            res@ == ec_mul_base(scalar@),
    {
        proof {
            use_type_invariant(scalar);
        }
        match point_mul_base(scalar.bytes.as_slice()) {
            Some(q) => EcPoint { bytes: q },
            // unreachable: a held scalar always decodes
            None => EcPoint { bytes: [0u8; 33] },
        }
    }

    /// `scalar * self`; when `self` is `x * G` this is `x * (scalar * G)`.
    pub fn mul(&self, scalar: &SecretScalar) -> (res: EcPoint)
        ensures
            res@ == ec_mul(self@, scalar@),
            forall|x: Seq<u8>|
                ec_scalar_decodes(x) && self@ == #[trigger] ec_mul_base(x) ==> res@ == ec_mul(
                    ec_mul_base(scalar@),
                    x,
                ),
    {
        proof {
            use_type_invariant(self);
            use_type_invariant(scalar);
        }
        match point_mul(&self.bytes, scalar.bytes.as_slice()) {
            Some(q) => EcPoint { bytes: q },
            // unreachable: held points and scalars always decode
            None => *self,
        }
    }

    /// `self - other`; when `other` is `self - x * G` this is `x * G`.
    pub fn sub(&self, other: &EcPoint) -> (res: EcPoint)
        ensures
            res@ == ec_sub(self@, other@),
            forall|x: Seq<u8>|
                ec_scalar_decodes(x) && other@ == ec_sub(self@, #[trigger] ec_mul_base(x)) ==> res@
                    == ec_mul_base(x),
    {
        proof {
            use_type_invariant(self);
            use_type_invariant(other);
        }
        match point_sub(&self.bytes, &other.bytes) {
            Some(d) => EcPoint { bytes: d },
            // unreachable: held points always decode
            None => *self,
        }
    }
}

/// A secret scalar of secp256k1, held by its big-endian bytes.
pub struct SecretScalar {
    bytes: Vec<u8>,
}

impl View for SecretScalar {
    type V = Seq<u8>;

    closed spec fn view(&self) -> Seq<u8> {
        self.bytes@
    }
}

impl SecretScalar {
    /// Every scalar held decodes.
    #[verifier::type_invariant]
    pub(crate) open spec fn inv(self) -> bool {
        ec_scalar_decodes(self@)
    }

    /// Samples a fresh nonzero scalar from the operating system's random source.
    pub fn random(rng: &mut rand::rngs::OsRng) -> (res: SecretScalar)
        ensures
            ec_scalar_decodes(res@),
            !ec_is_identity(ec_mul_base(res@)),
    {
        SecretScalar { bytes: random_scalar(rng) }
    }

    /// Reads a scalar from big-endian bytes; `None` when they do not encode a scalar
    /// (more than 32 bytes, or a value not below the group order).
    pub fn from_be_bytes(bytes: &[u8]) -> (res: Option<SecretScalar>)
        ensures
            res is Some <==> ec_scalar_decodes(bytes@),
            res matches Some(s) ==> s@ == bytes@,
    {
        if scalar_decodes(bytes) {
            Some(SecretScalar { bytes: vstd::slice::slice_to_vec(bytes) })
        } else {
            None
        }
    }
}

} // verus!
