use vstd::prelude::*;
use crate::state::Counter;
use vstd::string::StringSliceAdditionalSpecFns;
use vstd::arithmetic::div_mod::{lemma_mod_breakdown, lemma_small_mod};

verus! {

/// Bytes that a counter account's storage holds: an 8-byte type tag and the
/// count as 8 little-endian bytes.
pub const COUNTER_SPACE: usize = 16;

/// The text whose hash gives the counter account's type tag.
pub const COUNTER_TAG_SEED: &'static str = "account:Counter";

/// Why account bytes do not hold a counter.
#[derive(Clone, Copy, Debug, PartialEq, Eq, Structural)]
pub enum LayoutError {
    /// Fewer than 8 bytes: no type tag.
    DiscriminatorNotFound,
    /// The type tag is not the counter's.
    DiscriminatorMismatch,
    /// The tag is followed by fewer than 8 bytes.
    DidNotDeserialize,
}

/// The SHA-256 digest of `data`.
pub uninterp spec fn sha256_of(data: Seq<u8>) -> Seq<u8>;

/// Relies on anchor_lang::solana_program::hash::hash: the SHA-256 digest of
/// its input, which depends on the input alone.
#[verifier::external_body]
fn sha256(data: &[u8]) -> (r: [u8; 32])
    ensures
        r@ == sha256_of(data@),
{
    anchor_lang::solana_program::hash::hash(data).to_bytes()
}

/// The counter account's type tag: the first 8 bytes of the digest of its seed.
pub open spec fn counter_discriminator() -> Seq<u8> {
    sha256_of(COUNTER_TAG_SEED.spec_bytes()).subrange(0, 8)
}

/// The `k` low bytes of `n`, least significant first.
pub open spec fn le_bytes(n: nat, k: nat) -> Seq<u8>
    decreases k,
{
    if k == 0 {
        Seq::empty()
    } else {
        seq![(n % 256) as u8] + le_bytes(n / 256, (k - 1) as nat)
    }
}

/// The number whose bytes, least significant first, are `b`.
pub open spec fn le_value(b: Seq<u8>) -> nat
    decreases b.len(),
{
    if b.len() == 0 {
        0
    } else {
        (b[0] + 256 * le_value(b.drop_first())) as nat
    }
}

/// The bytes of an account that holds `c`, behind the type tag `tag`.
pub open spec fn account_bytes(tag: Seq<u8>, c: Counter) -> Seq<u8> {
    tag + le_bytes(c.count as nat, 8)
}

/// What the account bytes `data` hold, for the type tag `tag`.
pub open spec fn account_value(tag: Seq<u8>, data: Seq<u8>) -> Result<Counter, LayoutError> {
    if data.len() < 8 {
        Err(LayoutError::DiscriminatorNotFound)
    } else if data.subrange(0, 8) != tag {
        Err(LayoutError::DiscriminatorMismatch)
    } else if data.len() < 16 {
        Err(LayoutError::DidNotDeserialize)
    } else {
        Ok(Counter { count: le_value(data.subrange(8, 16)) as u64 })
    }
}

/// The counter account's type tag.
pub fn discriminator() -> (r: Vec<u8>)
    ensures
        r@ == counter_discriminator(),
{
    let digest = sha256(COUNTER_TAG_SEED.as_bytes());
    let mut tag: Vec<u8> = Vec::new();
    let mut i: usize = 0;
    while i < 8
        invariant
            0 <= i <= 8,
            digest@ == sha256_of(COUNTER_TAG_SEED.spec_bytes()),
            tag@ == digest@.subrange(0, i as int),
        decreases 8 - i,
    {
        tag.push(digest[i]);
        i = i + 1;
        assert(tag@ =~= digest@.subrange(0, i as int));
    }
    tag
}

/// The account bytes that hold `c` behind the type tag `tag`.
pub fn encode_account(tag: &Vec<u8>, c: &Counter) -> (r: Vec<u8>)
    ensures
        r@ == account_bytes(tag@, *c),
{
    let mut out = tag.clone();
    let mut v: u64 = c.count;
    let mut i: usize = 0;
    while i < 8
        invariant
            0 <= i <= 8,
            out@ + le_bytes(v as nat, (8 - i) as nat) == account_bytes(tag@, *c),
        decreases 8 - i,
    {
        let ghost rest = le_bytes(v as nat, (8 - i) as nat);
        let ghost prev = out@;
        out.push((v % 256) as u8);
        v = v / 256;
        i = i + 1;
        assert(prev + rest =~= out@ + le_bytes(v as nat, (8 - i) as nat));
    }
    assert(out@ =~= out@ + le_bytes(v as nat, 0));
    out
}

proof fn lemma_le_value_bound(b: Seq<u8>)
    ensures
        le_value(b) < pow256(b.len()),
    decreases b.len(),
{
    if b.len() > 0 {
        lemma_le_value_bound(b.drop_first());
        let r = le_value(b.drop_first());
        let p = pow256(b.drop_first().len());
        assert(b[0] + 256 * r < 256 * p) by (nonlinear_arith)
            requires
                b[0] < 256,
                r < p,
        ;
    }
}

spec fn pow256(k: nat) -> nat
    decreases k,
{
    if k == 0 {
        1
    } else {
        256 * pow256((k - 1) as nat)
    }
}

/// What the account bytes `data` hold, read with the type tag `tag`.
pub fn decode_account(tag: &Vec<u8>, data: &[u8]) -> (r: Result<Counter, LayoutError>)
    ensures
        r == account_value(tag@, data@),
{
    if data.len() < 8 {
        return Err(LayoutError::DiscriminatorNotFound);
    }
    if tag.len() != 8 {
        assert(data@.subrange(0, 8).len() != tag@.len());
        return Err(LayoutError::DiscriminatorMismatch);
    }
    let mut i: usize = 0;
    while i < 8
        invariant
            0 <= i <= 8,
            data@.len() >= 8,
            tag@.len() == 8,
            forall|j: int| 0 <= j < i ==> data@[j] == tag@[j],
        decreases 8 - i,
    {
        if data[i] != tag[i] {
            assert(data@.subrange(0, 8)[i as int] != tag@[i as int]);
            return Err(LayoutError::DiscriminatorMismatch);
        }
        i = i + 1;
    }
    assert(data@.subrange(0, 8) =~= tag@);
    if data.len() < 16 {
        return Err(LayoutError::DidNotDeserialize);
    }
    let ghost body = data@.subrange(8, 16);
    let mut v: u64 = 0;
    let mut k: usize = 16;
    while k > 8
        invariant
            8 <= k <= 16,
            data@.len() >= 16,
            body == data@.subrange(8, 16),
            v as nat == le_value(data@.subrange(k as int, 16)),
        decreases k,
    {
        let ghost tail = data@.subrange(k as int, 16);
        proof {
            lemma_le_value_bound(tail);
            assert(pow256(tail.len()) <= pow256(7)) by {
                lemma_pow256_mono(tail.len(), 7);
            }
        }
        k = k - 1;
        assert(data@.subrange(k as int, 16).drop_first() =~= tail);
        proof {
            lemma_pow256_seven();
        }
        assert(v * 256 + data@[k as int] <= u64::MAX) by (nonlinear_arith)
            requires
                v < 0x100000000000000nat,
        ;
        v = v * 256 + data[k] as u64;
    }
    Ok(Counter { count: v })
}

proof fn lemma_pow256_seven()
    ensures
        pow256(7) == 0x100000000000000nat,
{
    assert(pow256(0) == 1);
    assert(pow256(1) == 0x100nat);
    assert(pow256(2) == 0x10000nat);
    assert(pow256(3) == 0x1000000nat);
    assert(pow256(4) == 0x100000000nat);
    assert(pow256(5) == 0x10000000000nat);
    assert(pow256(6) == 0x1000000000000nat);
}

proof fn lemma_pow256_mono(a: nat, b: nat)
    requires
        a <= b,
    ensures
        pow256(a) <= pow256(b),
    decreases b,
{
    if a < b {
        lemma_pow256_mono(a, (b - 1) as nat);
    }
}

proof fn lemma_le_round_trip(n: nat, k: nat)
    ensures
        le_bytes(n, k).len() == k,
        le_value(le_bytes(n, k)) == n % pow256(k),
    decreases k,
{
    if k > 0 {
        lemma_le_round_trip(n / 256, (k - 1) as nat);
        assert(le_bytes(n, k).drop_first() =~= le_bytes(n / 256, (k - 1) as nat));
        lemma_pow256_positive((k - 1) as nat);
        lemma_mod_breakdown(n as int, 256, pow256((k - 1) as nat) as int);
    }
}

proof fn lemma_pow256_positive(k: nat)
    ensures
        pow256(k) > 0,
    decreases k,
{
    if k > 0 {
        lemma_pow256_positive((k - 1) as nat);
    }
}

/// Account bytes written for a counter behind an 8-byte type tag read back
/// as that counter.
pub proof fn lemma_account_bytes_round_trip(tag: Seq<u8>, c: Counter)
    requires
        tag.len() == 8,
    ensures
        account_value(tag, account_bytes(tag, c)) == Ok::<Counter, LayoutError>(c),
{
    let data = account_bytes(tag, c);
    lemma_le_round_trip(c.count as nat, 8);
    assert(data.subrange(0, 8) =~= tag);
    assert(data.subrange(8, 16) =~= le_bytes(c.count as nat, 8));
    lemma_pow256_seven();
    assert(pow256(8) == 0x10000000000000000nat);
    lemma_small_mod(c.count as nat, pow256(8));
}

impl Counter {
    /// The bytes of an account that holds this counter.
    pub fn to_account_data(&self) -> (r: Vec<u8>)
        ensures
            r@ == account_bytes(counter_discriminator(), *self),
    {
        let tag = discriminator();
        encode_account(&tag, self)
    }

    /// The counter that account bytes hold.
    pub fn from_account_data(data: &[u8]) -> (r: Result<Counter, LayoutError>)
        ensures
            r == account_value(counter_discriminator(), data@),
    {
        let tag = discriminator();
        decode_account(&tag, data)
    }
}

} // verus!
