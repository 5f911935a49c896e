//! The whole-file digest, taken over a file as it is read.

use vstd::prelude::*;
use vstd::slice::slice_subrange;
use crate::shared_defs::HEAD_BYTES;
use crate::hexadecimal;
use crate::hexadecimal::encode;

verus! {

/// `sha2::Sha256`, known only by the bytes it has taken in.
#[verifier::external_type_specification]
#[verifier::external_body]
pub struct ExSha256(sha2::Sha256);

/// The bytes that a hasher has taken in.
pub uninterp spec fn absorbed(h: sha2::Sha256) -> Seq<u8>;

/// The SHA-256 digest of some bytes.
pub uninterp spec fn sha256(data: Seq<u8>) -> Seq<u8>;

/// `sha2::Digest::new` for `sha2::Sha256`: a hasher that has taken in nothing.
#[verifier::external_body]
pub(crate) fn hasher() -> (h: sha2::Sha256)
    ensures
        absorbed(h) == Seq::<u8>::empty(),
{
    sha2::Digest::new()
}

/// `sha2::Digest::update` takes in some bytes after those taken in before.
#[verifier::external_body]
pub(crate) fn absorb(h: &mut sha2::Sha256, data: &[u8])
    ensures
        absorbed(*final(h)) == absorbed(*old(h)) + data@,
{
    sha2::Digest::update(h, data)
}

/// `sha2::Digest::finalize` gives the digest, 32 bytes, of what the hasher has taken in.
#[verifier::external_body]
pub(crate) fn finish(h: sha2::Sha256) -> (d: Vec<u8>)
    ensures
        d@ == sha256(absorbed(h)),
        d@.len() == 32,
{
    sha2::Digest::finalize(h).to_vec()
}

/// Where the digest of a file stands after a read.
pub enum HashStep {
    /// There is more to read.
    More(sha2::Sha256),
    /// The digest in hexadecimal, or nothing where the file could not be read.
    Done(Option<String>),
}

/// The digest of some bytes in lower-case hexadecimal.
pub open spec fn hash_text(data: Seq<u8>) -> Seq<char> {
    hexadecimal::hex_text(sha256(data))
}

/// A digest as text: 64 lower-case hexadecimal digits, leading zeros among them.
pub open spec fn is_hash_text(s: Seq<char>) -> bool {
    s.len() == 64 && forall|i: int|
        0 <= i < s.len() ==> '0' <= #[trigger] s[i] <= '9' || 'a' <= s[i] <= 'f'
}

proof fn digest_of_32_bytes(d: Seq<u8>)
    requires
        d.len() == 32,
    ensures
        is_hash_text(hexadecimal::hex_text(d)),
{
    let s = hexadecimal::hex_text(d);
    assert forall|i: int| 0 <= i < s.len() implies '0' <= #[trigger] s[i] <= '9' || 'a' <= s[i]
        <= 'f' by {
        assert(d[i / 2] / 16 < 16 && d[i / 2] % 16 < 16);
    }
}

fn finish_text(h: sha2::Sha256) -> (r: String)
    ensures
        r@ == hash_text(absorbed(h)),
        is_hash_text(r@),
{
    let d = finish(h);
    proof {
        digest_of_32_bytes(d@);
    }
    encode(d.as_slice())
}

/// A hasher for a file that is about to be read.
pub fn full_hash_start() -> (h: sha2::Sha256)
    ensures
        absorbed(h) == Seq::<u8>::empty(),
{
    hasher()
}

/// Take in one read of the file: nothing where the read failed, and no bytes where the
/// file has ended.
pub fn full_hash_step(h: sha2::Sha256, read: Option<&[u8]>) -> (r: HashStep)
    ensures
        read is None ==> r matches HashStep::Done(None),
        read matches Some(d) ==> d@.len() == 0 ==> (r matches HashStep::Done(Some(t)) && t@
            == hash_text(absorbed(h)) && is_hash_text(t@)),
        read matches Some(d) ==> d@.len() > 0 ==> (r matches HashStep::More(n) && absorbed(n)
            == absorbed(h) + d@),
{
    match read {
        None => HashStep::Done(None),
        Some(d) => {
            if d.len() == 0 {
                HashStep::Done(Some(finish_text(h)))
            } else {
                let mut h = h;
                absorb(&mut h, d);
                HashStep::More(h)
            }
        },
    }
}

/// The bytes of a file from its reads: up to the first read without bytes.
pub open spec fn content(reads: Seq<Option<Vec<u8>>>) -> Seq<u8>
    decreases reads.len(),
{
    if reads.len() == 0 || reads[0] is None || reads[0]->0@.len() == 0 {
        Seq::empty()
    } else {
        reads[0]->0@ + content(reads.subrange(1, reads.len() as int))
    }
}

/// A read failed before the file ended.
pub open spec fn unreadable(reads: Seq<Option<Vec<u8>>>) -> bool
    decreases reads.len(),
{
    if reads.len() == 0 {
        false
    } else if reads[0] is None {
        true
    } else {
        reads[0]->0@.len() > 0 && unreadable(reads.subrange(1, reads.len() as int))
    }
}

/// The digest of a file from its reads, in hexadecimal; nothing where a read failed. It
/// depends on the bytes alone and not on how they were cut into reads.
pub fn full_hash(reads: &Vec<Option<Vec<u8>>>) -> (r: Option<String>)
    ensures
        r is None <==> unreadable(reads@),
        r matches Some(t) ==> t@ == hash_text(content(reads@)) && is_hash_text(t@),
{
    let mut h = full_hash_start();
    let mut i: usize = 0;
    proof {
        assert(reads@.subrange(0, reads@.len() as int) =~= reads@);
        assert(absorbed(h) + content(reads@) =~= content(reads@));
    }
    while i < reads.len()
        invariant
            i <= reads.len(),
            absorbed(h) + content(reads@.subrange(i as int, reads@.len() as int)) == content(
                reads@,
            ),
            unreadable(reads@) == unreadable(reads@.subrange(i as int, reads@.len() as int)),
        decreases reads.len() - i,
    {
        let ghost rest = reads@.subrange(i as int, reads@.len() as int);
        let ghost so_far = absorbed(h);
        let read: Option<&[u8]> = match &reads[i] {
            Some(v) => Some(v.as_slice()),
            None => None,
        };
        proof {
            assert(rest[0] == reads@[i as int]);
            assert(rest.subrange(1, rest.len() as int) =~= reads@.subrange(
                i + 1,
                reads@.len() as int,
            ));
        }
        match full_hash_step(h, read) {
            HashStep::Done(r) => {
                proof {
                    assert(so_far + Seq::<u8>::empty() =~= so_far);
                }
                return r;
            },
            HashStep::More(n) => {
                h = n;
                proof {
                    let tail = content(reads@.subrange(i + 1, reads@.len() as int));
                    assert(so_far + (rest[0]->0@ + tail) =~= (so_far + rest[0]->0@) + tail);
                }
            },
        }
        i += 1;
    }
    proof {
        assert(absorbed(h) + Seq::<u8>::empty() =~= absorbed(h));
    }
    Some(finish_text(h))
}

/// The digest of some bytes, in hexadecimal.
pub fn sha256_hex(data: &[u8]) -> (r: String)
    ensures
        r@ == hash_text(data@),
        is_hash_text(r@),
{
    let mut h = hasher();
    absorb(&mut h, data);
    proof {
        assert(Seq::<u8>::empty() + data@ =~= data@);
    }
    finish_text(h)
}

/// The head of a file.
pub open spec fn head_of(data: Seq<u8>) -> Seq<u8> {
    if data.len() <= HEAD_BYTES {
        data
    } else {
        data.take(HEAD_BYTES as int)
    }
}

/// The digest of a file's head, in hexadecimal. What comes after the head does not change
/// it.
pub fn head_hash(data: &[u8]) -> (r: String)
    ensures
        r@ == hash_text(head_of(data@)),
        is_hash_text(r@),
{
    if data.len() as u64 <= HEAD_BYTES {
        sha256_hex(data)
    } else {
        sha256_hex(slice_subrange(data, 0, HEAD_BYTES as usize))
    }
}

} // verus!
