use vstd::prelude::*;
use vstd::string::StringSliceAdditionalSpecFns;
use vstd::utf8::encode_utf8;
use crate::error::Error;

verus! {

/// Memory cost of a digest, in KiB blocks (32 MiB), which makes GPU and ASIC
/// guessing expensive.
pub const MEM_COST: u32 = 32768;

/// Number of passes over the memory.
pub const TIME_COST: u32 = 2;

/// Number of parallel lanes.
pub const LANES: u32 = 6;

/// Length of the raw hash inside a digest, in bytes.
pub const HASH_LENGTH: u32 = 32;

/// The encoded Argon2id (version 0x13) digest of `password` with `salt` at the
/// given cost, as rust-argon2 writes it (`$argon2id$v=19$m=..,t=..,p=..$salt$hash`).
pub uninterp spec fn argon2id_encoded(
    password: Seq<u8>,
    salt: Seq<u8>,
    mem_cost: u32,
    time_cost: u32,
    lanes: u32,
    hash_length: u32,
) -> Seq<char>;

/// What rust-argon2 reports when it checks `password` against the encoded
/// digest `encoded`: `None` where it cannot decode the digest or refuses its
/// parameters.
pub uninterp spec fn argon2_verdict(encoded: Seq<char>, password: Seq<u8>) -> Option<bool>;

/// Inputs that Argon2 accepts: a salt of at least 8 bytes, and no input
/// longer than `u32::MAX` bytes.
pub open spec fn hashable(password: Seq<u8>, salt: Seq<u8>) -> bool {
    8 <= salt.len() <= u32::MAX && password.len() <= u32::MAX
}

/// Cost parameters that Argon2 accepts on every platform.
pub open spec fn cost_accepted(mem_cost: u32, time_cost: u32, lanes: u32, hash_length: u32) -> bool {
    &&& 1 <= lanes <= 0xFF_FFFF
    &&& 8 * lanes <= mem_cost <= 0x20_0000
    &&& 1 <= time_cost
    &&& 4 <= hash_length
}

/// `encoded` is a digest that Argon2id wrote for `password`, under some
/// accepted salt and cost.
pub open spec fn encoded_from(encoded: Seq<char>, password: Seq<u8>) -> bool {
    exists|salt: Seq<u8>, m: u32, t: u32, l: u32, h: u32|
        hashable(password, salt) && cost_accepted(m, t, l, h)
            && #[trigger] argon2id_encoded(password, salt, m, t, l, h) == encoded
}

/// The digest this service stores for `password` under the process salt `salt`.
pub open spec fn digest_of(password: Seq<u8>, salt: Seq<u8>) -> Seq<char> {
    argon2id_encoded(password, salt, MEM_COST, TIME_COST, LANES, HASH_LENGTH)
}

/// Relies on argon2::hash_encoded, its error dropped (Argon2id, version 0x13, no secret, no
/// associated data). Its context check refuses a salt under 8 bytes, inputs
/// over `u32::MAX` bytes and out-of-range costs, and nothing else.
#[verifier::external_body]
fn argon2id_hash_encoded(
    password: &[u8],
    salt: &[u8],
    mem_cost: u32,
    time_cost: u32,
    lanes: u32,
    hash_length: u32,
) -> (r: Option<String>)
    ensures
        r is Some ==> hashable(password@, salt@),
        hashable(password@, salt@) && cost_accepted(mem_cost, time_cost, lanes, hash_length)
            ==> r is Some,
        r matches Some(e) ==> e@ == argon2id_encoded(
            password@,
            salt@,
            mem_cost,
            time_cost,
            lanes,
            hash_length,
        ),
{
    let config = argon2::Config {
        variant: argon2::Variant::Argon2id,
        version: argon2::Version::Version13,
        mem_cost,
        time_cost,
        lanes,
        thread_mode: argon2::ThreadMode::from_threads(lanes),
        secret: &[],
        ad: &[],
        hash_length,
    };
    argon2::hash_encoded(password, salt, &config).ok()
}

/// Relies on argon2::verify_encoded, its error dropped: it decodes the parameters, salt and hash
/// from `encoded`, hashes `password` with them and compares. A digest that
/// hash_encoded wrote for the same password therefore checks.
#[verifier::external_body]
fn argon2_verify_encoded(encoded: &str, password: &[u8]) -> (r: Option<bool>)
    ensures
        r == argon2_verdict(encoded@, password@),
        encoded_from(encoded@, password@) ==> r == Some(true),
{
    argon2::verify_encoded(encoded, password).ok()
}

/// Derives and checks salted, memory-hard password digests. The salt is a
/// process-wide secret fixed when the hasher is made.
pub struct Hasher {
    salt: String,
}

impl Hasher {
    /// The process salt, as the bytes that are hashed.
    pub closed spec fn salt_bytes(&self) -> Seq<u8> {
        encode_utf8(self.salt@)
    }

    /// A hasher that uses `salt` for every digest.
    pub fn new(salt: String) -> (h: Hasher)
        ensures
            h.salt_bytes() == encode_utf8(salt@),
    {
        Hasher { salt }
    }

    /// The digest of `password`; fails with `Hasher` when Argon2 refuses the
    /// inputs, which happens exactly when the salt is under 8 bytes or an
    /// input is over `u32::MAX` bytes.
    pub fn generate(&self, password: &str) -> (r: Result<String, Error>)
        ensures
            r is Ok <==> hashable(password.spec_bytes(), self.salt_bytes()),
            r matches Ok(d) ==> d@ == digest_of(password.spec_bytes(), self.salt_bytes()),
            r matches Err(e) ==> e == Error::Hasher,
    {
        let digest = argon2id_hash_encoded(
            password.as_bytes(),
            self.salt.as_str().as_bytes(),
            MEM_COST,
            TIME_COST,
            LANES,
            HASH_LENGTH,
        );
        match digest {
            Some(d) => Ok(d),
            None => Err(Error::Hasher),
        }
    }

    /// Whether `password` matches the digest `hash`; fails with `Hasher` only
    /// when the digest cannot be decoded or its parameters are refused. A
    /// digest made from the same password, under any salt, always matches.
    pub fn verify(&self, hash: &str, password: &str) -> (r: Result<bool, Error>)
        ensures
            r == (match argon2_verdict(hash@, password.spec_bytes()) {
                Some(b) => Ok(b),
                None => Err(Error::Hasher),
            }),
            forall|salt: Seq<u8>|
                hashable(password.spec_bytes(), salt) && #[trigger] digest_of(
                    password.spec_bytes(),
                    salt,
                ) == hash@ ==> r == Ok::<bool, Error>(true),
    {
        let verdict = argon2_verify_encoded(hash, password.as_bytes());
        proof {
            assert forall|salt: Seq<u8>|
                hashable(password.spec_bytes(), salt) && #[trigger] digest_of(
                    password.spec_bytes(),
                    salt,
                ) == hash@ implies verdict == Some(true) by {
                assert(cost_accepted(MEM_COST, TIME_COST, LANES, HASH_LENGTH));
                assert(argon2id_encoded(
                    password.spec_bytes(),
                    salt,
                    MEM_COST,
                    TIME_COST,
                    LANES,
                    HASH_LENGTH,
                ) == hash@);
            }
        }
        match verdict {
            Some(b) => Ok(b),
            None => Err(Error::Hasher),
        }
    }
}

} // verus!
