//! The credential hasher: from a username and a secret to the digest that is
//! stored in place of the secret.

use vstd::prelude::*;
use vstd::slice::slice_to_vec;
use vstd::string::StringSliceAdditionalSpecFns;
use vstd::utf8::*;

verus! {

/// The number of bytes in a digest.
pub const DIGEST_LEN: usize = 32;

/// The BLAKE3 hash of a byte stream, in its default 32-byte form.
pub uninterp spec fn blake3_digest(input: Seq<u8>) -> Seq<u8>;

/// Calls `blake3::hash` and copies the 32 bytes out of the `Hash` it returns.
///
/// Trusted: that the bytes are the BLAKE3 hash of `input`, which depends on
/// `input` alone. The width is carried by the array type.
#[verifier::external_body]
fn blake3_hash(input: &[u8]) -> (out: [u8; 32])
    ensures
        out@ == blake3_digest(input@),
{
    *blake3::hash(input).as_bytes()
}

/// The byte stream that is hashed for a credential: the username's bytes, then
/// the secret's, with nothing between them.
pub open spec fn credential_stream(username: Seq<char>, secret: Seq<char>) -> Seq<u8> {
    encode_utf8(username) + encode_utf8(secret)
}

/// The digest of a credential.
pub open spec fn spec_hash(username: Seq<char>, secret: Seq<char>) -> Seq<u8> {
    blake3_digest(credential_stream(username, secret))
}

/// A 32-byte password digest. Two digests are equal when their bytes are.
#[derive(Clone, Copy, Debug, PartialEq, Eq)]
pub struct Digest {
    bytes: [u8; 32],
}

impl View for Digest {
    type V = Seq<u8>;

    closed spec fn view(&self) -> Seq<u8> {
        self.bytes@
    }
}

impl Digest {
    /// The digest that holds `bytes`, where `bytes` are 32.
    pub closed spec fn spec_of(bytes: Seq<u8>) -> Digest {
        choose|digest: Digest| digest@ == bytes
    }

    /// A digest is what its bytes are: two digests with the same bytes are
    /// one digest, and every digest is the digest of its bytes.
    pub proof fn lemma_bytes_determine(self, other: Digest)
        ensures
            self@ == other@ ==> self == other,
            Digest::spec_of(self@) == self,
            self@.len() == DIGEST_LEN,
    {
        if self@ == other@ {
            assert(self.bytes =~= other.bytes);
        }
        let chosen = Digest::spec_of(self@);
        assert(chosen@ == self@);
        assert(chosen.bytes =~= self.bytes);
    }

    /// A digest holding `bytes`.
    pub fn from_bytes(bytes: [u8; 32]) -> (digest: Digest)
        ensures
            digest@ == bytes@,
    {
        Digest { bytes }
    }

    /// Reads a digest from a stored binary value: `Some` exactly when the value
    /// is 32 bytes long, and then with those bytes.
    pub fn from_slice(stored: &[u8]) -> (digest: Option<Digest>)
        ensures
            digest is Some <==> stored@.len() == DIGEST_LEN,
            digest is Some ==> digest->0@ == stored@,
    {
        if stored.len() != DIGEST_LEN {
            return None;
        }
        let mut bytes: [u8; 32] = [0u8; 32];
        let mut i: usize = 0;
        while i < DIGEST_LEN
            invariant
                stored@.len() == DIGEST_LEN,
                0 <= i <= DIGEST_LEN,
                forall|j: int| 0 <= j < i ==> bytes@[j] == stored@[j],
            decreases DIGEST_LEN - i,
        {
            bytes[i] = stored[i];
            i += 1;
        }
        proof {
            assert(bytes@ =~= stored@);
        }
        Some(Digest { bytes })
    }

    /// The digest's bytes.
    pub fn as_bytes(&self) -> (bytes: [u8; 32])
        ensures
            bytes@ == self@,
    {
        self.bytes
    }

    /// Exact byte comparison.
    pub fn matches(&self, other: &Digest) -> (same: bool)
        ensures
            same == (self@ == other@),
    {
        let mut i: usize = 0;
        while i < DIGEST_LEN
            invariant
                0 <= i <= DIGEST_LEN,
                forall|j: int| 0 <= j < i ==> self.bytes@[j] == other.bytes@[j],
            decreases DIGEST_LEN - i,
        {
            if self.bytes[i] != other.bytes[i] {
                return false;
            }
            i += 1;
        }
        proof {
            assert(self.bytes@ =~= other.bytes@);
        }
        true
    }
}

/// Hashes a credential: the username's bytes followed by the secret's, as one
/// stream, through BLAKE3.
pub fn hash(username: &str, secret: &str) -> (digest: Digest)
    ensures
        digest@ == spec_hash(username@, secret@),
        digest@.len() == DIGEST_LEN,
{
    let mut stream: Vec<u8> = slice_to_vec(username.as_bytes());
    let tail: &[u8] = secret.as_bytes();
    let mut i: usize = 0;
    while i < tail.len()
        invariant
            tail@ == encode_utf8(secret@),
            0 <= i <= tail@.len(),
            stream@ == encode_utf8(username@) + tail@.subrange(0, i as int),
        decreases tail@.len() - i,
    {
        stream.push(tail[i]);
        proof {
            assert(tail@.subrange(0, i + 1) == tail@.subrange(0, i as int).push(tail@[i as int]));
        }
        i += 1;
    }
    proof {
        assert(tail@.subrange(0, tail@.len() as int) == tail@);
    }
    Digest { bytes: blake3_hash(stream.as_slice()) }
}

/// Two streams on which BLAKE3 collides: they differ and their hashes do not.
/// None is known.
pub open spec fn blake3_collides(a: Seq<u8>, b: Seq<u8>) -> bool {
    a != b && blake3_digest(a) == blake3_digest(b)
}

/// The hasher is deterministic: the digest depends on the username and the
/// secret and on nothing else.
pub proof fn lemma_hash_is_deterministic(
    u1: Seq<char>,
    s1: Seq<char>,
    u2: Seq<char>,
    s2: Seq<char>,
)
    requires
        u1 == u2,
        s1 == s2,
    ensures
        spec_hash(u1, s1) == spec_hash(u2, s2),
{
}

/// Text is told apart by its bytes.
proof fn lemma_encoding_is_injective(a: Seq<char>, b: Seq<char>)
    requires
        encode_utf8(a) == encode_utf8(b),
    ensures
        a == b,
{
    encode_utf8_decode_utf8(a);
    encode_utf8_decode_utf8(b);
}

/// Distinct usernames never share a hashed stream under one secret.
pub proof fn lemma_username_separates_streams(u1: Seq<char>, u2: Seq<char>, secret: Seq<char>)
    requires
        u1 != u2,
    ensures
        credential_stream(u1, secret) != credential_stream(u2, secret),
{
    let e1 = encode_utf8(u1);
    let e2 = encode_utf8(u2);
    let es = encode_utf8(secret);
    if e1 + es == e2 + es {
        assert((e1 + es).len() == (e2 + es).len());
        assert(e1 =~= (e1 + es).subrange(0, e1.len() as int));
        assert(e2 =~= (e2 + es).subrange(0, e2.len() as int));
        lemma_encoding_is_injective(u1, u2);
    }
}

/// Distinct secrets never share a hashed stream under one username.
pub proof fn lemma_secret_separates_streams(username: Seq<char>, s1: Seq<char>, s2: Seq<char>)
    requires
        s1 != s2,
    ensures
        credential_stream(username, s1) != credential_stream(username, s2),
{
    let eu = encode_utf8(username);
    let e1 = encode_utf8(s1);
    let e2 = encode_utf8(s2);
    if eu + e1 == eu + e2 {
        assert((eu + e1).len() == (eu + e2).len());
        assert(e1 =~= (eu + e1).subrange(eu.len() as int, (eu + e1).len() as int));
        assert(e2 =~= (eu + e2).subrange(eu.len() as int, (eu + e2).len() as int));
        lemma_encoding_is_injective(s1, s2);
    }
}

/// Distinct usernames have distinct digests under one secret, unless BLAKE3
/// collides on their streams.
pub proof fn lemma_username_separates_digests(u1: Seq<char>, u2: Seq<char>, secret: Seq<char>)
    requires
        u1 != u2,
        !blake3_collides(credential_stream(u1, secret), credential_stream(u2, secret)),
    ensures
        spec_hash(u1, secret) != spec_hash(u2, secret),
{
    lemma_username_separates_streams(u1, u2, secret);
}

} // verus!
