//! Supervision of the backend relay: waiting for it to come up, and the
//! fingerprint of its configuration file.

use sha2::Digest;
use vstd::prelude::*;
use vstd::utf8::encode_utf8;
use crate::json::hex_digit_lower;

verus! {

/// How often the dashboard asks the backend whether it is up.
pub const NRR_WAIT_ATTEMPTS: u32 = 10;

/// The largest exponent of the back-off between two attempts.
pub const NRR_BACKOFF_MAX_EXPONENT: u32 = 5;

/// What the dashboard does after one check of whether the backend is up.
#[derive(Debug, PartialEq, Eq, Structural)]
pub enum WaitStep {
    /// The backend is up: stop waiting.
    Done,
    /// Pause this many seconds, then check again.
    RetryAfter(u64),
    /// Pause this many seconds, then stop waiting: the backend did not come up.
    GiveUpAfter(u64),
}

/// Decides on check `attempt` (counted from zero) of whether the backend is
/// up: stop when it is; otherwise pause by the back-off, and give up after
/// the last of the attempts.
pub fn wait_step(attempt: u32, healthy: bool) -> (s: WaitStep)
    ensures
        healthy ==> s == WaitStep::Done,
        !healthy && attempt + 1 < NRR_WAIT_ATTEMPTS ==> s == WaitStep::RetryAfter(
            backoff_secs(attempt as nat) as u64,
        ),
        !healthy && attempt + 1 >= NRR_WAIT_ATTEMPTS ==> s == WaitStep::GiveUpAfter(
            backoff_secs(attempt as nat) as u64,
        ),
{
    if healthy {
        return WaitStep::Done;
    }
    let pause = retry_delay_secs(attempt);
    if attempt < NRR_WAIT_ATTEMPTS - 1 {
        WaitStep::RetryAfter(pause)
    } else {
        WaitStep::GiveUpAfter(pause)
    }
}

/// Two to the power `e`.
pub open spec fn pow2(e: nat) -> nat
    decreases e,
{
    if e == 0 {
        1
    } else {
        2 * pow2((e - 1) as nat)
    }
}

/// The pause after failed attempt `attempt`, in seconds: doubling from one
/// second, and at most thirty-two.
pub open spec fn backoff_secs(attempt: nat) -> nat {
    if attempt < NRR_BACKOFF_MAX_EXPONENT {
        pow2(attempt)
    } else {
        pow2(NRR_BACKOFF_MAX_EXPONENT as nat)
    }
}

/// The pause after a failed attempt to reach the backend.
pub fn retry_delay_secs(attempt: u32) -> (r: u64)
    ensures
        r == backoff_secs(attempt as nat),
        1 <= r <= 32,
{
    let e: u32 = if attempt < NRR_BACKOFF_MAX_EXPONENT {
        attempt
    } else {
        NRR_BACKOFF_MAX_EXPONENT
    };
    let mut r: u64 = 1;
    let mut i: u32 = 0;
    while i < e
        invariant
            i <= e <= 5,
            r == pow2(i as nat),
            r <= 32,
        decreases e - i,
    {
        proof {
            reveal_with_fuel(pow2, 6);
            assert(pow2(5) == 32);
            lemma_pow2_monotone(i as nat + 1, 5);
        }
        r = r * 2;
        i = i + 1;
    }
    proof {
        lemma_pow2_positive(e as nat);
    }
    r
}

proof fn lemma_pow2_positive(e: nat)
    ensures
        pow2(e) >= 1,
    decreases e,
{
    if e > 0 {
        lemma_pow2_positive((e - 1) as nat);
    }
}

proof fn lemma_pow2_monotone(a: nat, b: nat)
    requires
        a <= b,
    ensures
        pow2(a) <= pow2(b),
    decreases b,
{
    if a < b {
        lemma_pow2_monotone(a, (b - 1) as nat);
        lemma_pow2_positive((b - 1) as nat);
    }
}

/// The SHA-256 digest of `data`, as `sha2` computes it.
pub uninterp spec fn sha256_digest(data: Seq<u8>) -> Seq<u8>;

/// Computes the SHA-256 digest of `data` with `sha2::Sha256::digest`. The
/// contract names the result and states its length, thirty-two bytes.
#[verifier::external_body]
fn sha256(data: &[u8]) -> (r: Vec<u8>)
    ensures
        r@ == sha256_digest(data@),
        r@.len() == 32,
{
    sha2::Sha256::digest(data).to_vec()
}

/// The lower case hexadecimal text of bytes, two digits per byte, high
/// digit first.
pub open spec fn hex_lower(bytes: Seq<u8>) -> Seq<char>
    decreases bytes.len(),
{
    if bytes.len() == 0 {
        Seq::empty()
    } else {
        seq![hex_digit_lower(bytes[0] as int / 16), hex_digit_lower(bytes[0] as int % 16)]
            + hex_lower(bytes.drop_first())
    }
}

proof fn lemma_hex_lower_len(bytes: Seq<u8>)
    ensures
        hex_lower(bytes).len() == 2 * bytes.len(),
    decreases bytes.len(),
{
    if bytes.len() > 0 {
        lemma_hex_lower_len(bytes.drop_first());
    }
}

/// Encodes `data` with `hex::encode`: the contract states the lower case
/// hexadecimal text that its source writes.
#[verifier::external_body]
fn hex_encode(data: &[u8]) -> (r: String)
    ensures
        r@ == hex_lower(data@),
{
    hex::encode(data)
}

/// The fingerprint of a configuration text: the lower case hexadecimal
/// SHA-256 digest of its UTF-8 bytes.
pub fn config_hash(content: &str) -> (r: String)
    ensures
        r@ == hex_lower(sha256_digest(encode_utf8(content@))),
        r@.len() == 64,
{
    let bytes = content.as_bytes();
    let digest = sha256(bytes);
    let r = hex_encode(digest.as_slice());
    proof {
        lemma_hex_lower_len(digest@);
    }
    r
}

} // verus!
