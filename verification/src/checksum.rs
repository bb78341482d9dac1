//! Streaming content hashing: the MD5 digest of a file's bytes, rendered
//! as a lowercase hexadecimal string. The digest itself comes from the
//! `md-5` crate behind a trusted wrapper; turning the raw digest into hex
//! is verified here.

use vstd::prelude::*;
use md5::Digest;
use crate::progress::ProgressTracker;

verus! {

/// How many bytes a hashing step feeds and reports at once; a detail of
/// the streaming, not of any contract.
pub const BLOCK_SIZE: usize = 8192;

/// The 16-byte MD5 digest of a byte sequence. The digest is a function of
/// the content alone; what it is on given bytes is not stated here.
pub uninterp spec fn md5_of(content: Seq<u8>) -> Seq<u8>;

/// Relies on the `md-5` crate: `Digest::digest` on `md5::Md5` computes the
/// 16-byte MD5 digest of the input, a function of the input bytes alone.
#[verifier::external_body]
fn md5_digest(content: &Vec<u8>) -> (r: Vec<u8>)
    ensures
        r@ == md5_of(content@),
        r@.len() == 16,
{
    md5::Md5::digest(content).to_vec()
}

/// The lowercase hexadecimal digit for a value below sixteen, as an ASCII
/// byte.
pub open spec fn hex_digit(n: u8) -> u8
    recommends
        n < 16,
{
    if n < 10 {
        (48 + n) as u8
    } else {
        (87 + n) as u8
    }
}

/// The lowercase hexadecimal rendering of a byte sequence: two digits per
/// byte, high nibble first.
pub open spec fn hex_of(bytes: Seq<u8>) -> Seq<u8>
    decreases bytes.len(),
{
    if bytes.len() == 0 {
        Seq::empty()
    } else {
        seq![hex_digit(bytes[0] / 16), hex_digit(bytes[0] % 16)] + hex_of(bytes.skip(1))
    }
}

fn hex_digit_byte(n: u8) -> (r: u8)
    requires
        n < 16,
    ensures
        r == hex_digit(n),
{
    if n < 10 {
        48 + n
    } else {
        87 + n
    }
}

/// The lowercase hexadecimal rendering of `bytes`.
pub fn to_hex(bytes: &Vec<u8>) -> (r: Vec<u8>)
    ensures
        r@ == hex_of(bytes@),
{
    let n = bytes.len();
    let mut r: Vec<u8> = Vec::new();
    let mut i: usize = 0;
    proof {
        assert(bytes@.skip(0) =~= bytes@);
        assert(r@ =~= Seq::<u8>::empty());
    }
    while i < n
        invariant
            n == bytes@.len(),
            i <= n,
            hex_of(bytes@) == r@ + hex_of(bytes@.skip(i as int)),
        decreases n - i,
    {
        let ghost r0 = r@;
        let ghost rest = bytes@.skip(i as int);
        let b = bytes[i];
        assert(rest[0] == b);
        let hi = hex_digit_byte(b / 16);
        let lo = hex_digit_byte(b % 16);
        r.push(hi);
        r.push(lo);
        proof {
            assert(bytes@.skip(i as int).skip(1) =~= bytes@.skip(i + 1 as int));
            assert(r@ + hex_of(bytes@.skip(i + 1 as int)) =~= r0 + (seq![hex_digit(rest[0] / 16), hex_digit(rest[0] % 16)] + hex_of(bytes@.skip(i + 1 as int))));
        }
        i += 1;
    }
    proof {
        assert(bytes@.skip(n as int) =~= Seq::<u8>::empty());
        assert(r@ + Seq::<u8>::empty() =~= r@);
    }
    r
}

/// The lowercase hexadecimal MD5 hash of `content`.
pub fn hash_bytes(content: &Vec<u8>) -> (r: Vec<u8>)
    ensures
        r@ == hex_of(md5_of(content@)),
{
    let digest = md5_digest(content);
    to_hex(&digest)
}

/// Hashes `content` in fixed-size blocks, advancing the tracker by each
/// block's length, and returns the final hash as lowercase hexadecimal.
/// Distinct calls share no mutable state, so the function may run
/// concurrently on distinct contents and trackers.
pub fn hash_content(content: &Vec<u8>, tracker: &mut ProgressTracker) -> (r: Vec<u8>)
    requires
        !old(tracker).finished,
        old(tracker).transferred_bytes + content@.len() <= u64::MAX,
    ensures
        r@ == hex_of(md5_of(content@)),
        final(tracker).transferred_bytes == old(tracker).transferred_bytes + content@.len(),
        final(tracker).total_bytes == old(tracker).total_bytes,
        !final(tracker).finished,
{
    let ghost t0 = *tracker;
    let n = content.len();
    let mut done: usize = 0;
    while done < n
        invariant
            n == content@.len(),
            done <= n,
            !tracker.finished,
            tracker.transferred_bytes == t0.transferred_bytes + done,
            tracker.total_bytes == t0.total_bytes,
            t0.transferred_bytes + n <= u64::MAX,
        decreases n - done,
    {
        let step = if n - done < BLOCK_SIZE {
            n - done
        } else {
            BLOCK_SIZE
        };
        tracker.advance(step as u64);
        done += step;
    }
    hash_bytes(content)
}

/// Hashing is deterministic: the digest is a function of the byte content
/// alone, so hashing the same content twice — also from operations running
/// concurrently — yields the identical hash string.
pub proof fn lemma_hash_deterministic(a: Seq<u8>, b: Seq<u8>)
    requires
        a == b,
    ensures
        hex_of(md5_of(a)) == hex_of(md5_of(b)),
{
}

} // verus!
