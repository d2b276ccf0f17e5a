//! Content-derived identifiers and digests.
use vstd::prelude::*;
use vstd::string::StringSliceAdditionalSpecFns;
use vstd::utf8::encode_utf8;
use sha1::Digest as Sha1Digest;
use sha2::Digest as Sha2Digest;

verus! {

/// Lower-case hexadecimal digit of a value below 16.
pub open spec fn hex_digit(v: u8) -> char {
    if v < 10 {
        (('0' as u8) + v) as char
    } else {
        (('a' as u8) + (v - 10)) as char
    }
}

/// Two lower-case hexadecimal digits per byte, high nibble first.
pub open spec fn hex_of(b: Seq<u8>) -> Seq<char>
    decreases b.len(),
{
    if b.len() == 0 {
        Seq::empty()
    } else {
        seq![hex_digit(b[0] / 16), hex_digit(b[0] % 16)] + hex_of(b.subrange(1, b.len() as int))
    }
}

/// Hex text has two characters per byte.
pub proof fn lemma_hex_len(b: Seq<u8>)
    ensures
        hex_of(b).len() == 2 * b.len(),
    decreases b.len(),
{
    if b.len() > 0 {
        lemma_hex_len(b.subrange(1, b.len() as int));
    }
}

/// Name for the SHA-1 digest of a byte sequence.
pub uninterp spec fn sha1_of(data: Seq<u8>) -> Seq<u8>;

/// Name for the SHA-256 digest of a byte sequence.
pub uninterp spec fn sha256_of(data: Seq<u8>) -> Seq<u8>;

/// Relies on `sha1::Sha1::digest`: the 20-byte digest of the data.
#[verifier::external_body]
fn sha1_digest(data: &[u8]) -> (r: Vec<u8>)
    ensures
        r@ == sha1_of(data@),
        r@.len() == 20,
{
    sha1::Sha1::digest(data).to_vec()
}

/// Relies on `sha2::Sha256::digest`: the 32-byte digest of the data.
#[verifier::external_body]
fn sha256_digest(data: &[u8]) -> (r: Vec<u8>)
    ensures
        r@ == sha256_of(data@),
        r@.len() == 32,
{
    sha2::Sha256::digest(data).to_vec()
}

/// Relies on `hex::encode`: two lower-case digits per byte.
#[verifier::external_body]
fn hex_encode(data: &[u8]) -> (r: String)
    ensures
        r@ == hex_of(data@),
{
    hex::encode(data)
}

/// Bytes of `b` added at the end of `out`.
pub fn append_bytes(out: &mut Vec<u8>, b: &[u8])
    ensures
        final(out)@ == old(out)@ + b@,
{
    out.extend_from_slice(b);
    assert(final(out)@ =~= old(out)@ + b@);
}

/// The identifier of a face: hex of the SHA-1 digest of the UTF-8 bytes of
/// its source path followed by those of its postscript name.
pub open spec fn face_id_of(path: Seq<char>, postscript_name: Seq<char>) -> Seq<char> {
    hex_of(sha1_of(encode_utf8(path) + encode_utf8(postscript_name)))
}

/// The identifier of the face named `postscript_name` from source `path`.
pub fn face_id(path: &str, postscript_name: &str) -> (r: String)
    ensures
        r@ == face_id_of(path@, postscript_name@),
        r@.len() == 40,
{
    let mut data: Vec<u8> = Vec::new();
    append_bytes(&mut data, path.as_bytes());
    append_bytes(&mut data, postscript_name.as_bytes());
    assert(data@ =~= path.spec_bytes() + postscript_name.spec_bytes());
    let digest = sha1_digest(data.as_slice());
    proof {
        lemma_hex_len(digest@);
    }
    hex_encode(digest.as_slice())
}

/// Hex of the SHA-256 digest of a file's contents, used to tell whether two
/// files hold the same bytes.
pub fn content_digest(data: &[u8]) -> (r: String)
    ensures
        r@ == hex_of(sha256_of(data@)),
        r@.len() == 64,
{
    let digest = sha256_digest(data);
    proof {
        lemma_hex_len(digest@);
    }
    hex_encode(digest.as_slice())
}

/// Two identifiers built from equal inputs are equal: the identifier is a
/// function of the source path and the postscript name alone.
pub proof fn face_id_deterministic(p1: Seq<char>, n1: Seq<char>, p2: Seq<char>, n2: Seq<char>)
    requires
        p1 == p2,
        n1 == n2,
    ensures
        face_id_of(p1, n1) == face_id_of(p2, n2),
{
}

} // verus!
