//! The draw: from which place in the pool a mint takes its identifier.
//!
//! The place is derived from the block height, the block time and the address
//! of whoever asks, by hashing their text and reducing the hash modulo the
//! size of the pool. All three are public or chosen by the caller, so the draw
//! can be predicted, and whoever influences them can bias it. It is
//! reproducible by design and is not a source of randomness to rely on.

use crate::host::{Env, MessageInfo};
use crate::text::{decimal_string, decimal_text, timestamp_text};
use cosmwasm_std::{Timestamp, Uint256};
use sha2::{Digest, Sha256};
use vstd::prelude::*;
use vstd::string::*;
use vstd::utf8::encode_utf8;

verus! {

/// The SHA-256 digest of `data`.
pub uninterp spec fn sha256(data: Seq<u8>) -> Seq<u8>;

/// Calls `sha2::Sha256::digest`. Trusted: the 32 bytes that come back are the
/// SHA-256 digest of `data`, which depends on nothing but `data`.
#[verifier::external_body]
fn sha256_digest(data: &[u8]) -> (digest: [u8; 32])
    ensures
        digest@ == sha256(data@),
{
    Sha256::digest(data).into()
}

/// The number that `bytes` spell in base 256, most significant byte first.
pub open spec fn be_value(bytes: Seq<u8>) -> nat
    decreases bytes.len(),
{
    if bytes.len() == 0 {
        0
    } else {
        be_value(bytes.drop_last()) * 256 + bytes.last() as nat
    }
}

/// Calls `cosmwasm_std::Uint256::from_be_bytes` and the `%` of `Uint256`.
/// Trusted: `from_be_bytes` reads the 32 bytes as one number, most significant
/// byte first, and `%` is the remainder of the division by a nonzero `modulus`.
/// The remainder is smaller than `modulus` and so fits the result.
#[verifier::external_body]
fn uint256_rem(bytes: [u8; 32], modulus: u64) -> (rem: u64)
    requires
        modulus > 0,
    ensures
        rem == be_value(bytes@) % (modulus as nat),
{
    let rem = Uint256::from_be_bytes(bytes) % Uint256::from(modulus);
    rem.to_string().parse::<u64>().unwrap()
}

/// Calls the `Display` of `cosmwasm_std::Timestamp`. Trusted: it prints the
/// whole seconds, a dot, and the nanoseconds within the second as nine digits.
#[verifier::external_body]
fn timestamp_string(nanos: u64) -> (text: String)
    ensures
        text@ == timestamp_text(nanos as nat),
{
    Timestamp::from_nanos(nanos).to_string()
}

/// The seed of a draw: the height, the time and the sender, written one after
/// the other with nothing in between.
pub open spec fn seed_text(height: u64, time: u64, sender: Seq<char>) -> Seq<char> {
    decimal_text(height as nat) + timestamp_text(time as nat) + sender
}

/// The place in a pool of `count` identifiers that a draw takes from: the
/// SHA-256 digest of the seed's UTF-8 bytes, read as one number and reduced
/// modulo `count`.
pub open spec fn draw_index(height: u64, time: u64, sender: Seq<char>, count: nat) -> nat
    recommends
        count > 0,
{
    be_value(sha256(encode_utf8(seed_text(height, time, sender)))) % count
}

/// The circumstances of a draw: everything but the pool that it depends on.
pub struct DrawContext {
    /// The height of the block in which the draw is made.
    pub height: u64,
    /// The time of that block, in nanoseconds since the epoch.
    pub time: u64,
    /// The address of whoever asks for the draw.
    pub sender: Seq<char>,
}

impl DrawContext {
    /// The circumstances of a call.
    pub open spec fn of(env: Env, info: MessageInfo) -> DrawContext {
        DrawContext { height: env.height, time: env.time, sender: info.sender@ }
    }

    /// The place in a pool of `count` identifiers that a draw in these
    /// circumstances takes from.
    pub open spec fn place(self, count: nat) -> int
        recommends
            count > 0,
    {
        draw_index(self.height, self.time, self.sender, count) as int
    }
}

/// A draw from a pool that is not empty takes from a place inside the pool.
pub proof fn lemma_draw_index_in_range(height: u64, time: u64, sender: Seq<char>, count: nat)
    requires
        count > 0,
    ensures
        draw_index(height, time, sender, count) < count,
{
    let value = be_value(sha256(encode_utf8(seed_text(height, time, sender))));
    assert(value % count < count) by (nonlinear_arith)
        requires
            count > 0,
    ;
}

/// The draw is reproducible: the same height, time, sender and pool size
/// always lead to the same place. Nothing else enters into it.
pub proof fn lemma_draw_index_deterministic(
    height1: u64,
    time1: u64,
    sender1: Seq<char>,
    count1: nat,
    height2: u64,
    time2: u64,
    sender2: Seq<char>,
    count2: nat,
)
    requires
        height1 == height2,
        time1 == time2,
        sender1 =~= sender2,
        count1 == count2,
    ensures
        draw_index(height1, time1, sender1, count1) == draw_index(height2, time2, sender2, count2),
{
}

/// Writes the seed of a draw.
pub fn seed(env: &Env, info: &MessageInfo) -> (seed: String)
    ensures
        seed@ == seed_text(env.height, env.time, info.sender@),
{
    let mut seed = decimal_string(env.height);
    let time = timestamp_string(env.time);
    seed.append(time.as_str());
    seed.append(info.sender.as_str());
    seed
}

/// Derives the place to draw from, for a pool of `token_count` identifiers.
pub fn random_chance(env: &Env, info: &MessageInfo, token_count: u64) -> (index: u64)
    requires
        token_count > 0,
    ensures
        index == draw_index(env.height, env.time, info.sender@, token_count as nat),
        index < token_count,
{
    let seed = seed(env, info);
    let digest = sha256_digest(seed.as_str().as_bytes());
    proof {
        lemma_draw_index_in_range(env.height, env.time, info.sender@, token_count as nat);
    }
    uint256_rem(digest, token_count)
}

} // verus!
