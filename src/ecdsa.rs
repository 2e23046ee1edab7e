//! ECDSA key generation, signing and verification over a curve, a generator
//! and the generator's order `n`.

use crate::curve::{ec_add, reduced, scalar_mul, EllipticCurve, Point, PointModel};
use crate::field::{add_mod, div_mod, mul_mod, FiniteField};
use crate::natural::{be_bytes_value, random_in_range, Natural};
use sha2::{Digest, Sha256};
use vstd::arithmetic::div_mod::lemma_small_mod;
use vstd::prelude::*;

verus! {

/// The SHA-256 digest of a message.
pub uninterp spec fn sha256_of(m: Seq<u8>) -> Seq<u8>;

/// Relies on sha2's `Sha256` (`new`, `update`, `finalize`): the 32-byte SHA-256 digest.
#[verifier::external_body]
fn sha256(message: &[u8]) -> (r: Vec<u8>)
    ensures
        r@ == sha256_of(message@),
        r@.len() == 32,
{
    let mut hasher = Sha256::new();
    hasher.update(message);
    hasher.finalize().to_vec()
}

/// The message digest read as a big-endian integer, reduced modulo `n`.
pub open spec fn message_hash(m: Seq<u8>, n: int) -> int {
    be_bytes_value(sha256_of(m)) as int % n
}

/// How many nonces signing draws before it gives up.
pub const MAX_SIGN_ATTEMPTS: u32 = 256;

/// A private key `d` and its public key `d * G`.
#[derive(Debug)]
pub struct ECDSAKeyPair {
    pub private_key: Natural,
    pub public_key: Point,
}

/// A signature `(r, s)`.
#[derive(Debug)]
pub struct ECDSASignature {
    pub r: Natural,
    pub s: Natural,
}

impl Clone for ECDSASignature {
    fn clone(&self) -> (c: ECDSASignature)
        ensures
            c.r@ == self.r@,
            c.s@ == self.s@,
    {
        ECDSASignature { r: self.r.clone(), s: self.s.clone() }
    }
}

impl PartialEq for ECDSASignature {
    fn eq(&self, o: &ECDSASignature) -> (b: bool) {
        self.r == o.r && self.s == o.s
    }
}

impl vstd::std_specs::cmp::PartialEqSpecImpl for ECDSASignature {
    open spec fn obeys_eq_spec() -> bool {
        true
    }

    open spec fn eq_spec(&self, o: &ECDSASignature) -> bool {
        self.r@ == o.r@ && self.s@ == o.s@
    }
}

/// Signing can give up when every nonce it drew was degenerate.
#[derive(Debug, PartialEq, Eq)]
pub enum SignError {
    SignatureGenerationFailure,
}

/// A curve, a generator `G` on it, and the order `n` of `G`.
pub struct ECDSA {
    pub curve: EllipticCurve,
    pub generator: Point,
    pub order: Natural,
}

impl ECDSA {
    /// The curve's modulus is odd and at least 3, `G` has reduced coordinates, and `n >= 2`.
    pub open spec fn wf(&self) -> bool {
        &&& self.curve.wf()
        &&& reduced(self.curve.p@ as int, self.generator@)
        &&& self.order@ >= 2
    }

    /// `k * P` on this curve.
    pub open spec fn mul_spec(&self, pt: PointModel, k: nat) -> PointModel {
        scalar_mul(self.curve.a@ as int, self.curve.p@ as int, pt, k)
    }

    /// The signature made with nonce `k` on digest `z` under key `d`, or `None`
    /// where `k` is degenerate (`k * G` is the identity, `r = 0` or `s = 0`).
    pub open spec fn sign_spec(&self, z: int, d: int, k: nat) -> Option<(int, int)> {
        let n = self.order@ as int;
        match self.mul_spec(self.generator@, k) {
            None => None,
            Some((x, _)) => {
                let r = x % n;
                let s = mul_mod(div_mod(1, k as int, n), add_mod(z, mul_mod(r, d, n), n), n);
                if r == 0 || s == 0 {
                    None
                } else {
                    Some((r, s))
                }
            },
        }
    }

    /// Whether `(r, s)` is a valid signature of digest `z` under public key `q`.
    pub open spec fn verify_spec(&self, z: int, r: int, s: int, q: PointModel) -> bool {
        let n = self.order@ as int;
        if r == 0 || r >= n || s == 0 || s >= n {
            false
        } else {
            let w = div_mod(1, s, n);
            let u1 = mul_mod(z, w, n);
            let u2 = mul_mod(r, w, n);
            match ec_add(
                self.curve.a@ as int,
                self.curve.p@ as int,
                self.mul_spec(self.generator@, u1 as nat),
                self.mul_spec(q, u2 as nat),
            ) {
                None => false,
                Some((x, _)) => x % n == r,
            }
        }
    }

    pub fn new(curve: EllipticCurve, generator: Point, order: Natural) -> (r: ECDSA)
        ensures
            r.curve == curve,
            r.generator == generator,
            r.order == order,
    {
        ECDSA { curve, generator, order }
    }

    /// A private key drawn uniformly from `[1, n)`.
    pub fn generate_private_key(&self) -> (d: Natural)
        requires
            self.order@ >= 2,
        ensures
            1 <= d@ < self.order@,
    {
        random_in_range(&Natural::from_u64(1), &self.order)
    }

    /// `d * G`.
    pub fn generate_public_key(&self, private_key: &Natural) -> (q: Point)
        requires
            self.wf(),
        ensures
            q@ == self.mul_spec(self.generator@, private_key@),
            reduced(self.curve.p@ as int, q@),
    {
        self.curve.scalar_mult(&self.generator, private_key)
    }

    pub fn generate_keypair(&self) -> (kp: ECDSAKeyPair)
        requires
            self.wf(),
        ensures
            1 <= kp.private_key@ < self.order@,
            kp.public_key@ == self.mul_spec(self.generator@, kp.private_key@),
            reduced(self.curve.p@ as int, kp.public_key@),
    {
        let private_key = self.generate_private_key();
        let public_key = self.generate_public_key(&private_key);
        ECDSAKeyPair { private_key, public_key }
    }

    /// The key pair with private key `d`, for `d` in `[1, n)`.
    pub fn keypair_from_private_key(&self, private_key: Natural) -> (kp: ECDSAKeyPair)
        requires
            self.wf(),
            1 <= private_key@ < self.order@,
        ensures
            kp.private_key@ == private_key@,
            kp.public_key@ == self.mul_spec(self.generator@, private_key@),
            reduced(self.curve.p@ as int, kp.public_key@),
    {
        let public_key = self.generate_public_key(&private_key);
        ECDSAKeyPair { private_key, public_key }
    }

    fn hash_message(&self, message: &[u8]) -> (z: Natural)
        requires
            self.order@ > 0,
        ensures
            z@ == message_hash(message@, self.order@ as int),
    {
        let digest = sha256(message);
        Natural::from_bytes_be(digest.as_slice()).rem(&self.order)
    }

    /// The signing step for one nonce `k` in `[1, n)`, on the digest `z`.
    pub fn sign_with_nonce(&self, z: &Natural, private_key: &Natural, k: &Natural) -> (sig:
        Option<ECDSASignature>)
        requires
            self.wf(),
            1 <= k@ < self.order@,
        ensures
            match sig {
                Some(sig) => self.sign_spec(z@ as int, private_key@ as int, k@) == Some(
                    (sig.r@ as int, sig.s@ as int),
                ),
                None => self.sign_spec(z@ as int, private_key@ as int, k@) is None,
            },
    {
        let field = FiniteField { p: self.order.clone() };
        let point = self.curve.scalar_mult(&self.generator, k);
        let r = match point {
            Point::Coordinate(x, _) => x.rem(&self.order),
            Point::Identity => return None,
        };
        if r.is_zero() {
            return None;
        }
        let r_d = field.mul(&r, private_key);
        let z_r_d = field.add(z, &r_d);
        proof {
            lemma_small_mod(k@, self.order@);
        }
        let k_inv = field.div(&Natural::from_u64(1), k);
        let s = field.mul(&k_inv, &z_r_d);
        if s.is_zero() {
            return None;
        }
        Some(ECDSASignature { r, s })
    }

    /// What signing with the nonces `drawn`, in that order, may return: the
    /// signature of the first nonce that is not degenerate, which is the last
    /// one drawn; or, once `MAX_SIGN_ATTEMPTS` nonces were all degenerate,
    /// `SignatureGenerationFailure`.
    pub open spec fn signing_outcome(
        &self,
        z: int,
        d: int,
        drawn: Seq<nat>,
        res: Result<ECDSASignature, SignError>,
    ) -> bool {
        &&& drawn.len() <= MAX_SIGN_ATTEMPTS as nat
        &&& forall|i: int| 0 <= i < drawn.len() ==> 1 <= #[trigger] drawn[i] < self.order@
        &&& match res {
            Ok(sig) => {
                &&& drawn.len() >= 1
                &&& self.sign_spec(z, d, drawn.last()) == Some((sig.r@ as int, sig.s@ as int))
                &&& forall|j: int|
                    0 <= j < drawn.len() - 1 ==> (#[trigger] self.sign_spec(z, d, drawn[j])) is None
            },
            Err(e) => {
                &&& e == SignError::SignatureGenerationFailure
                &&& drawn.len() == MAX_SIGN_ATTEMPTS as nat
                &&& forall|j: int|
                    0 <= j < drawn.len() ==> (#[trigger] self.sign_spec(z, d, drawn[j])) is None
            },
        }
    }

    /// Signs with fresh random nonces drawn uniformly from `[1, n)`, one at a
    /// time, until one is not degenerate or `MAX_SIGN_ATTEMPTS` were drawn.
    pub fn sign(&self, message: &[u8], private_key: &Natural) -> (res: Result<
        ECDSASignature,
        SignError,
    >)
        requires
            self.wf(),
        ensures
            exists|drawn: Seq<nat>|
                #[trigger] self.signing_outcome(
                    message_hash(message@, self.order@ as int),
                    private_key@ as int,
                    drawn,
                    res,
                ),
    {
        let z = self.hash_message(message);
        let one = Natural::from_u64(1);
        let mut attempt: u32 = 0;
        let ghost zi = z@ as int;
        let ghost di = private_key@ as int;
        let ghost mut drawn: Seq<nat> = Seq::empty();
        while attempt < MAX_SIGN_ATTEMPTS
            invariant
                self.wf(),
                one@ == 1,
                z@ == message_hash(message@, self.order@ as int),
                zi == z@,
                di == private_key@,
                attempt <= MAX_SIGN_ATTEMPTS,
                drawn.len() == attempt,
                forall|i: int| 0 <= i < drawn.len() ==> 1 <= #[trigger] drawn[i] < self.order@,
                forall|j: int|
                    0 <= j < drawn.len() ==> (#[trigger] self.sign_spec(zi, di, drawn[j])) is None,
            decreases MAX_SIGN_ATTEMPTS - attempt,
        {
            let k = random_in_range(&one, &self.order);
            let signed = self.sign_with_nonce(&z, private_key, &k);
            proof {
                drawn = drawn.push(k@);
            }
            if let Some(sig) = signed {
                let res = Ok(sig);
                assert(self.signing_outcome(zi, di, drawn, res));
                return res;
            }
            attempt = attempt + 1;
        }
        let res = Err(SignError::SignatureGenerationFailure);
        assert(self.signing_outcome(zi, di, drawn, res));
        res
    }

    /// Signs with the given nonces, each in `[1, n)`, in order: the signature
    /// comes from the first nonce that is not degenerate.
    pub fn sign_with_nonces(&self, message: &[u8], private_key: &Natural, nonces: &Vec<Natural>) -> (res:
        Result<ECDSASignature, SignError>)
        requires
            self.wf(),
            forall|i: int| 0 <= i < nonces@.len() ==> 1 <= #[trigger] nonces@[i]@ < self.order@,
        ensures
            ({
                let z = message_hash(message@, self.order@ as int);
                match res {
                    Ok(sig) => exists|i: int|
                        0 <= i < nonces@.len() && self.sign_spec(z, private_key@ as int, nonces@[i]@)
                            == Some((sig.r@ as int, sig.s@ as int)) && forall|j: int|
                            0 <= j < i ==> (#[trigger] self.sign_spec(
                                z,
                                private_key@ as int,
                                nonces@[j]@,
                            )) is None,
                    Err(e) => e == SignError::SignatureGenerationFailure && forall|j: int|
                        0 <= j < nonces@.len() ==> (#[trigger] self.sign_spec(
                            z,
                            private_key@ as int,
                            nonces@[j]@,
                        )) is None,
                }
            }),
    {
        let z = self.hash_message(message);
        let mut i: usize = 0;
        while i < nonces.len()
            invariant
                self.wf(),
                i <= nonces@.len(),
                z@ == message_hash(message@, self.order@ as int),
                forall|i: int| 0 <= i < nonces@.len() ==> 1 <= #[trigger] nonces@[i]@ < self.order@,
                forall|j: int|
                    0 <= j < i ==> (#[trigger] self.sign_spec(
                        z@ as int,
                        private_key@ as int,
                        nonces@[j]@,
                    )) is None,
            decreases nonces@.len() - i,
        {
            if let Some(sig) = self.sign_with_nonce(&z, private_key, &nonces[i]) {
                return Ok(sig);
            }
            i = i + 1;
        }
        Err(SignError::SignatureGenerationFailure)
    }

    /// Verification on the digest `z`, for a public key with reduced coordinates.
    pub fn verify_hash(&self, z: &Natural, signature: &ECDSASignature, public_key: &Point) -> (b:
        bool)
        requires
            self.wf(),
            reduced(self.curve.p@ as int, public_key@),
        ensures
            b == self.verify_spec(z@ as int, signature.r@ as int, signature.s@ as int, public_key@),
    {
        if signature.r.is_zero() || !signature.r.lt(&self.order) || signature.s.is_zero()
            || !signature.s.lt(&self.order) {
            return false;
        }
        let field = FiniteField { p: self.order.clone() };
        proof {
            lemma_small_mod(signature.s@, self.order@);
        }
        let w = field.div(&Natural::from_u64(1), &signature.s);
        let u1 = field.mul(z, &w);
        let u2 = field.mul(&signature.r, &w);
        let u1_g = self.curve.scalar_mult(&self.generator, &u1);
        let u2_q = self.curve.scalar_mult(public_key, &u2);
        let point = self.curve.add(&u1_g, &u2_q);
        match point {
            Point::Coordinate(x, _) => x.rem(&self.order) == signature.r,
            Point::Identity => false,
        }
    }

    pub fn verify(&self, message: &[u8], signature: &ECDSASignature, public_key: &Point) -> (b:
        bool)
        requires
            self.wf(),
            reduced(self.curve.p@ as int, public_key@),
        ensures
            b == self.verify_spec(
                message_hash(message@, self.order@ as int),
                signature.r@ as int,
                signature.s@ as int,
                public_key@,
            ),
    {
        let z = self.hash_message(message);
        self.verify_hash(&z, signature, public_key)
    }
}

/// A signature whose `r` or `s` is zero or not below `n` never verifies,
/// whatever the digest and the key.
pub proof fn lemma_out_of_range_rejected(e: &ECDSA, z: int, r: int, s: int, q: PointModel)
    requires
        r == 0 || r >= e.order@ || s == 0 || s >= e.order@,
    ensures
        !e.verify_spec(z, r, s, q),
{
}

} // verus!
