//! SHA-256 digests of blobs, written in lower-case hexadecimal.

use vstd::prelude::*;
use crate::id::hex_digit;

verus! {

/// The incremental SHA-256 state of the `ring` crate.
#[verifier::external_type_specification]
#[verifier::external_body]
pub struct ExContext(ring::digest::Context);

/// The bytes a digest context has been fed so far, in order.
pub uninterp spec fn sha256_absorbed(ctx: ring::digest::Context) -> Seq<u8>;

/// The SHA-256 digest of `data`.
pub uninterp spec fn sha256(data: Seq<u8>) -> Seq<u8>;

/// The number of bytes from which on a digest can no longer be finished: the
/// bit length of the input must fit in 64 bits.
pub const MAX_DIGEST_INPUT: u64 = 0x2000_0000_0000_0000;

/// The number of bytes from which on a digest can no longer be finished.
pub open spec fn max_digest_input() -> nat {
    MAX_DIGEST_INPUT as nat
}

/// Each byte as two lower-case hexadecimal digits, the high one first.
pub open spec fn hex_lower(data: Seq<u8>) -> Seq<char> {
    Seq::new(
        2 * data.len(),
        |i: int|
            if i % 2 == 0 {
                hex_digit(data[i / 2] as int / 16)
            } else {
                hex_digit(data[i / 2] as int % 16)
            },
    )
}

/// Calls `ring::digest::Context::new(&ring::digest::SHA256)`: a context that
/// has been fed nothing.
#[verifier::external_body]
fn context_new() -> (c: ring::digest::Context)
    ensures
        sha256_absorbed(c) == Seq::<u8>::empty(),
{
    ring::digest::Context::new(&ring::digest::SHA256)
}

/// Calls `ring::digest::Context::update`, which feeds `data` to the context
/// after what it had before.
#[verifier::external_body]
fn context_update(c: &mut ring::digest::Context, data: &[u8])
    ensures
        sha256_absorbed(*final(c)) == sha256_absorbed(*old(c)) + data@,
{
    c.update(data)
}

/// Calls `ring::digest::Context::finish` and copies the digest out: the
/// 32-byte SHA-256 digest of everything fed. The source panics when the bit
/// length of the input overflows 64 bits, which `requires` leaves out.
#[verifier::external_body]
fn context_finish(c: ring::digest::Context) -> (d: Vec<u8>)
    requires
        sha256_absorbed(c).len() < max_digest_input(),
    ensures
        d@ == sha256(sha256_absorbed(c)),
        d@.len() == 32,
{
    c.finish().as_ref().to_vec()
}

/// Calls `data_encoding::HEXLOWER.encode`, which writes each byte as two
/// lower-case hexadecimal digits, the high one first.
#[verifier::external_body]
fn hex_lower_text(data: &[u8]) -> (s: String)
    ensures
        s@ == hex_lower(data@),
{
    data_encoding::HEXLOWER.encode(data)
}

/// The SHA-256 digest of a stream, computed chunk by chunk.
pub struct Sha256Digester {
    ctx: ring::digest::Context,
    len: u64,
}

impl Sha256Digester {
    #[verifier::type_invariant]
    spec fn inv(self) -> bool {
        &&& self.len == sha256_absorbed(self.ctx).len()
        &&& self.len < max_digest_input()
    }

    /// The bytes fed so far.
    pub closed spec fn absorbed(&self) -> Seq<u8> {
        sha256_absorbed(self.ctx)
    }

    /// A digester that has been fed nothing.
    pub fn new() -> (d: Sha256Digester)
        ensures
            d.absorbed() == Seq::<u8>::empty(),
    {
        Sha256Digester { ctx: context_new(), len: 0 }
    }

    /// How many bytes have been fed so far.
    pub fn absorbed_len(&self) -> (n: u64)
        ensures
            n == self.absorbed().len(),
            n < max_digest_input(),
    {
        proof {
            use_type_invariant(self);
        }
        self.len
    }

    /// Feeds the first `count` bytes of `buf`, the result of one read into
    /// `buf`. A read of no bytes marks the end of the stream: it feeds nothing
    /// and returns `true`.
    pub fn absorb(&mut self, buf: &[u8], count: usize) -> (done: bool)
        requires
            count <= buf@.len(),
            old(self).absorbed().len() + count < max_digest_input(),
        ensures
            done == (count == 0),
            final(self).absorbed() == old(self).absorbed() + buf@.subrange(0, count as int),
    {
        proof {
            use_type_invariant(&*self);
        }
        if count == 0 {
            assert(buf@.subrange(0, 0) =~= Seq::<u8>::empty());
            assert(self.absorbed() + buf@.subrange(0, 0) =~= self.absorbed());
            return true;
        }
        let (chunk, _) = buf.split_at(count);
        let mut taken = Sha256Digester { ctx: context_new(), len: 0 };
        std::mem::swap(&mut taken, self);
        proof {
            use_type_invariant(&taken);
        }
        let Sha256Digester { mut ctx, len } = taken;
        context_update(&mut ctx, chunk);
        *self = Sha256Digester { ctx, len: len + count as u64 };
        false
    }

    /// The lower-case hexadecimal SHA-256 digest of everything fed.
    pub fn finish(self) -> (s: String)
        ensures
            s@ == hex_lower(sha256(self.absorbed())),
            s@.len() == 64,
    {
        proof {
            use_type_invariant(&self);
        }
        let digest = context_finish(self.ctx);
        hex_lower_text(digest.as_slice())
    }
}

/// The lower-case hexadecimal SHA-256 digest of `data`.
pub fn digest_hex(data: &[u8]) -> (s: String)
    requires
        data@.len() < max_digest_input(),
    ensures
        s@ == hex_lower(sha256(data@)),
        s@.len() == 64,
{
    let mut d = Sha256Digester::new();
    let done = d.absorb(data, data.len());
    assert(Seq::<u8>::empty() + data@.subrange(0, data@.len() as int) =~= data@);
    d.finish()
}

} // verus!
