//! Checksums for model files: an incremental SHA-256 digest (the hashing
//! itself is the sha2 crate's; the bytes fed so far are tracked as ghost
//! state) and a verified lowercase hex encoding of digests.

use vstd::prelude::*;
use sha2::Digest;

verus! {

use vstd::string::StringExecFns;

/// The SHA-256 digest of a byte sequence, as the sha2 crate computes it.
/// The digest is a function of the bytes alone.
pub uninterp spec fn sha256_of(data: Seq<u8>) -> Seq<u8>;

/// The hasher state of the sha2 crate.
#[verifier::external_type_specification]
#[verifier::external_body]
pub struct ExSha256(sha2::Sha256);

/// Relies on `sha2::Sha256::new` (via the `Digest` trait): a fresh
/// hasher state that has absorbed nothing. What it means is stated where
/// the digest is read out, over the bytes fed.
#[verifier::external_body]
fn sha256_new_hasher() -> sha2::Sha256 {
    sha2::Sha256::new()
}

/// An incremental SHA-256 digest: bytes are fed in chunks (file contents
/// are read in bounded reads), and the final digest is the digest of all
/// bytes fed, in order.
pub struct Sha256Stream {
    inner: sha2::Sha256,
    fed: Ghost<Seq<u8>>,
}

impl Sha256Stream {
    /// The bytes fed so far, in order.
    pub closed spec fn bytes_fed(&self) -> Seq<u8> {
        self.fed@
    }

    /// A fresh hasher that has absorbed nothing.
    pub fn new() -> (r: Sha256Stream)
        ensures
            r.bytes_fed() == Seq::<u8>::empty(),
    {
        Sha256Stream { inner: sha256_new_hasher(), fed: Ghost(Seq::empty()) }
    }

    /// Relies on `sha2::Sha256::update` (via the `Digest` trait): absorb
    /// a chunk of bytes.
    #[verifier::external_body]
    pub fn update(&mut self, chunk: &[u8])
        ensures
            final(self).bytes_fed() == old(self).bytes_fed() + chunk@,
    {
        self.inner.update(chunk);
    }

    /// Relies on `sha2::Sha256::finalize` (via the `Digest` trait): the
    /// 32-byte SHA-256 digest of exactly the bytes fed, in order.
    #[verifier::external_body]
    pub fn finalize(self) -> (r: Vec<u8>)
        ensures
            r@ == sha256_of(self.bytes_fed()),
            r@.len() == 32,
    {
        self.inner.finalize().to_vec()
    }
}

/// The lowercase hex character of a value below sixteen.
pub open spec fn spec_hex_char(d: int) -> char {
    if d < 10 {
        crate::text::spec_digit_char(d)
    } else if d == 10 {
        'a'
    } else if d == 11 {
        'b'
    } else if d == 12 {
        'c'
    } else if d == 13 {
        'd'
    } else if d == 14 {
        'e'
    } else {
        'f'
    }
}

/// The lowercase hex encoding of a byte sequence: two characters per
/// byte, high nibble first.
pub open spec fn spec_to_hex(data: Seq<u8>) -> Seq<char>
    decreases data.len(),
{
    if data.len() == 0 {
        Seq::empty()
    } else {
        spec_to_hex(data.drop_last()) + seq![
            spec_hex_char(data.last() as int / 16),
            spec_hex_char(data.last() as int % 16),
        ]
    }
}

/// The one-character string of a hex digit.
fn hex_char_str(d: u8) -> (r: &'static str)
    requires
        d < 16,
    ensures
        r@ == seq![spec_hex_char(d as int)],
{
    let r: &'static str = match d {
        0 => "0",
        1 => "1",
        2 => "2",
        3 => "3",
        4 => "4",
        5 => "5",
        6 => "6",
        7 => "7",
        8 => "8",
        9 => "9",
        10 => "a",
        11 => "b",
        12 => "c",
        13 => "d",
        14 => "e",
        _ => "f",
    };
    proof {
        reveal_strlit("0");
        reveal_strlit("1");
        reveal_strlit("2");
        reveal_strlit("3");
        reveal_strlit("4");
        reveal_strlit("5");
        reveal_strlit("6");
        reveal_strlit("7");
        reveal_strlit("8");
        reveal_strlit("9");
        reveal_strlit("a");
        reveal_strlit("b");
        reveal_strlit("c");
        reveal_strlit("d");
        reveal_strlit("e");
        reveal_strlit("f");
        assert(r@ =~= seq![spec_hex_char(d as int)]);
    }
    r
}

/// Encode bytes as lowercase hex, two characters per byte.
pub fn to_hex(data: &[u8]) -> (r: String)
    ensures
        r@ == spec_to_hex(data@),
{
    let mut out = String::new();
    let mut i: usize = 0;
    while i < data.len()
        invariant
            i <= data@.len(),
            out@ == spec_to_hex(data@.take(i as int)),
        decreases data@.len() - i,
    {
        let b = data[i];
        proof {
            assert(data@.take(i + 1).drop_last() == data@.take(i as int));
            assert(data@.take(i + 1).last() == data@[i as int]);
        }
        out.append(hex_char_str(b / 16));
        out.append(hex_char_str(b % 16));
        i = i + 1;
    }
    proof {
        assert(data@.take(data@.len() as int) == data@);
    }
    out
}

/// The SHA-256 digest of a byte slice, encoded as lowercase hex.
pub fn sha256_hex(data: &[u8]) -> (r: String)
    ensures
        r@ == spec_to_hex(sha256_of(data@)),
{
    let mut hasher = Sha256Stream::new();
    hasher.update(data);
    proof {
        assert(Seq::<u8>::empty() + data@ =~= data@);
    }
    let digest = hasher.finalize();
    to_hex(digest.as_slice())
}

} // verus!
