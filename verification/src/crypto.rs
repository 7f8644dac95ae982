//! Signing keys and the cryptographic collaborators of finalization.
//!
//! The signature algorithm, public-key derivation and digest computation are
//! external collaborators: they are consumed through trusted wrappers around
//! `fuel_crypto`, stated over plain byte values.

use vstd::prelude::*;
use rand::SeedableRng;

verus! {

/// The SHA-256 digest of `data`. Computed only by `fuel_crypto::Hasher`.
pub uninterp spec fn sha256_of(data: Seq<u8>) -> Seq<u8>;

/// The 64-byte compact ECDSA signature of the 32-byte message `digest` under
/// the secret key whose bytes are `key`. Computed only by
/// `fuel_crypto::Signature::sign`, which is deterministic (RFC 6979), so the
/// signature is a function of these two arguments alone.
pub uninterp spec fn sig_of(key: Seq<u8>, digest: Seq<u8>) -> Seq<u8>;

/// The owner address derived from the secret key whose bytes are `key`: the
/// SHA-256 hash of the derived public key, a function of the key alone.
pub uninterp spec fn owner_of(key: Seq<u8>) -> Seq<u8>;

/// The value of `b` read as a big-endian unsigned integer.
pub open spec fn be_bytes_to_nat(b: Seq<u8>) -> nat
    decreases b.len(),
{
    if b.len() == 0 {
        0
    } else {
        be_bytes_to_nat(b.drop_last()) * 256 + (b.last() as nat)
    }
}

/// The order of the secp256k1 scalar field.
pub open spec fn secp256k1_order() -> nat {
    (0xFFFFFFFF_FFFFFFFF_FFFFFFFF_FFFFFFFEu128 as nat)
        * (0x1_00000000_00000000u128 as nat) * (0x1_00000000_00000000u128 as nat)
        + (0xBAAEDCE6_AF48A03B_BFD25E8C_D0364141u128 as nat)
}

/// Bytes that form a valid secp256k1 secret key: a nonzero big-endian scalar
/// below the group order.
pub open spec fn is_valid_secret(b: Seq<u8>) -> bool {
    &&& b.len() == 32
    &&& 0 < be_bytes_to_nat(b)
    &&& be_bytes_to_nat(b) < secp256k1_order()
}

/// A signing key, held by its 32 raw bytes.
///
/// Values exist only through [`SigningKey::from_bytes`] or
/// [`random_signing_key`], both of which yield valid secp256k1 secret keys,
/// so every `SigningKey` can be handed to the signing collaborator.
#[derive(Clone, Copy, Debug)]
pub struct SigningKey {
    bytes: [u8; 32],
}

impl View for SigningKey {
    type V = Seq<u8>;

    closed spec fn view(&self) -> Seq<u8> {
        self.bytes@
    }
}

impl SigningKey {
    /// The raw bytes of the key.
    pub fn as_bytes(&self) -> (r: &[u8; 32])
        ensures
            r@ == self@,
    {
        &self.bytes
    }

    /// Relies on `fuel_crypto::SecretKey::try_from(&[u8])`, which succeeds
    /// exactly when the bytes are a nonzero big-endian scalar below the
    /// secp256k1 group order, and does not alter them.
    #[verifier::external_body]
    pub fn from_bytes(bytes: &[u8; 32]) -> (r: Option<SigningKey>)
        ensures
            (r is Some) == is_valid_secret(bytes@),
            r matches Some(k) ==> k@ == bytes@,
    {
        match fuel_crypto::SecretKey::try_from(&bytes[..]) {
            Ok(_) => Some(SigningKey { bytes: *bytes }),
            Err(_) => None,
        }
    }
}

/// Relies on `fuel_crypto::Hasher::hash`: the SHA-256 digest of the input,
/// 32 bytes, a function of the input alone.
#[verifier::external_body]
pub fn sha256_digest(data: &Vec<u8>) -> (r: [u8; 32])
    ensures
        r@ == sha256_of(data@),
{
    *fuel_crypto::Hasher::hash(data.as_slice())
}

/// Relies on `fuel_crypto::Signature::sign`: a 64-byte compact signature,
/// deterministic (RFC 6979), a function of the key bytes and the message
/// alone; and on `fuel_crypto::SecretKey::try_from`, which accepts every
/// `SigningKey`'s bytes (they were checked at construction), and
/// `fuel_crypto::Message::from_bytes`, which wraps the digest unchanged.
#[verifier::external_body]
pub fn sign_digest(key: &SigningKey, digest: &[u8; 32]) -> (r: Vec<u8>)
    ensures
        r@ == sig_of(key@, digest@),
        r@.len() == 64,
{
    let secret = fuel_crypto::SecretKey::try_from(&key.bytes[..])
        .expect("checked at construction");
    let message = fuel_crypto::Message::from_bytes(*digest);
    fuel_crypto::Signature::sign(&secret, &message).as_ref().to_vec()
}

/// Relies on `fuel_crypto::SecretKey::public_key` and
/// `fuel_crypto::PublicKey::hash`: the owner address is the SHA-256 hash of
/// the derived public key, a function of the key bytes alone; and on
/// `fuel_crypto::SecretKey::try_from` as in [`sign_digest`].
#[verifier::external_body]
pub fn owner_address(key: &SigningKey) -> (r: [u8; 32])
    ensures
        r@ == owner_of(key@),
{
    let secret = fuel_crypto::SecretKey::try_from(&key.bytes[..])
        .expect("checked at construction");
    *secret.public_key().hash()
}

/// The bytes of the signing key drawn by [`draw_fee_values`] from the seed.
pub uninterp spec fn fee_key_of(seed: u64) -> Seq<u8>;

/// The transaction id drawn by [`draw_fee_values`] from the seed.
pub uninterp spec fn fee_tx_id_of(seed: u64) -> Seq<u8>;

/// The output index drawn by [`draw_fee_values`] from the seed.
pub uninterp spec fn fee_output_index_of(seed: u64) -> u16;

/// The amount drawn by [`draw_fee_values`] from the seed.
pub uninterp spec fn fee_amount_of(seed: u64) -> u64;

/// The asset id drawn by [`draw_fee_values`] from the seed.
pub uninterp spec fn fee_asset_of(seed: u64) -> Seq<u8>;

/// The fixed draw sequence behind the fee-estimation input: a signing key,
/// then a utxo id, an amount and an asset id.
///
/// Relies on `rand::rngs::StdRng` (`SeedableRng::seed_from_u64`, `Rng::gen`),
/// a documented deterministic generator: for a fixed seed the drawn sequence
/// is a function of the seed alone under the pinned `rand` version, on every
/// machine; and on `fuel_crypto::SecretKey::random`, which draws from that
/// generator until it holds a valid secret key (deterministic for a
/// deterministic generator). So each component is named as a function of the
/// seed, and the key is always valid.
#[verifier::external_body]
pub fn draw_fee_values(seed: u64) -> (r: (SigningKey, [u8; 32], u16, u64, [u8; 32]))
    ensures
        r.0@ == fee_key_of(seed),
        is_valid_secret(r.0@),
        r.1@ == fee_tx_id_of(seed),
        r.2 == fee_output_index_of(seed),
        r.3 == fee_amount_of(seed),
        r.4@ == fee_asset_of(seed),
{
    let mut rng = rand::rngs::StdRng::seed_from_u64(seed);
    let secret = fuel_crypto::SecretKey::random(&mut rng);
    let key = SigningKey { bytes: <[u8; 32]>::from(secret) };
    let tx_id: [u8; 32] = rand::Rng::gen(&mut rng);
    let output_index: u16 = rand::Rng::gen(&mut rng);
    let amount: u64 = rand::Rng::gen(&mut rng);
    let asset_id: [u8; 32] = rand::Rng::gen(&mut rng);
    (key, tx_id, output_index, amount, asset_id)
}

} // verus!
