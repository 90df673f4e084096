//! System identifiers and timestamps.
//!
//! A cached record gets a system-assigned identifier the first time it
//! is persisted: `fig_` followed by the first sixteen hex digits of a
//! digest over the file key, the clock, and the version. The digest and
//! the clock come from outside the verified core, behind trusted
//! wrappers; everything that strings them together is verified.

use vstd::prelude::*;
use vstd::string::StrSliceExecFns;
use vstd::string::StringExecFns;
use vstd::utf8::encode_utf8;
use crate::model::FigmaFile;

verus! {

/// What sha2's Sha256 digest returns on the given input bytes; a
/// function of the input alone.
pub uninterp spec fn sha256_of(bytes: Seq<u8>) -> Seq<u8>;

/// Relies on sha2's `Sha256::digest`: a 32-byte digest computed from
/// the input bytes alone.
#[verifier::external_body]
fn sha256(bytes: &Vec<u8>) -> (r: Vec<u8>)
    ensures
        r@ == sha256_of(bytes@),
        r@.len() == 32,
{
    <sha2::Sha256 as sha2::Digest>::digest(bytes).to_vec()
}

/// The sixteen lowercase hex digits, indexed by value.
pub open spec fn hex_digit(n: int) -> char {
    if n == 0 {
        '0'
    } else if n == 1 {
        '1'
    } else if n == 2 {
        '2'
    } else if n == 3 {
        '3'
    } else if n == 4 {
        '4'
    } else if n == 5 {
        '5'
    } else if n == 6 {
        '6'
    } else if n == 7 {
        '7'
    } else if n == 8 {
        '8'
    } else if n == 9 {
        '9'
    } else if n == 10 {
        'a'
    } else if n == 11 {
        'b'
    } else if n == 12 {
        'c'
    } else if n == 13 {
        'd'
    } else if n == 14 {
        'e'
    } else {
        'f'
    }
}

/// Lowercase hex encoding: two digits per byte, high nibble first.
pub open spec fn hex_of(bytes: Seq<u8>) -> Seq<char> {
    Seq::new(
        bytes.len() * 2,
        |i: int|
            if i % 2 == 0 {
                hex_digit(bytes[i / 2] as int / 16)
            } else {
                hex_digit(bytes[i / 2] as int % 16)
            },
    )
}

/// Relies on hex's `encode`: each byte becomes two lowercase hex
/// digits, high nibble first.
#[verifier::external_body]
fn hex_encode(bytes: &Vec<u8>) -> (r: String)
    ensures
        r@ == hex_of(bytes@),
{
    hex::encode(bytes)
}

/// Relies on chrono's `Utc::now`, rendered as decimal text. Nothing is
/// assumed of its value.
#[verifier::external_body]
pub fn now_millis_text() -> String {
    chrono::Utc::now().timestamp_millis().to_string()
}

/// The seed string the identifier digest is computed over.
pub open spec fn id_seed(file_key: Seq<char>, now_text: Seq<char>, version: Seq<char>) -> Seq<
    char,
> {
    file_key + ":"@ + now_text + ":"@ + version
}

/// The identifier derived from a seed: `fig_` plus the first sixteen
/// hex digits of the seed's digest.
pub open spec fn id_of_seed(seed: Seq<char>) -> Seq<char> {
    "fig_"@ + hex_of(sha256_of(encode_utf8(seed)).take(8))
}

/// Derive a system identifier from the file key, a clock reading, and a
/// version, exactly as [`id_of_seed`] specifies.
pub fn file_id_from(file_key: &str, now_text: &str, version: &str) -> (r: String)
    ensures
        r@ == id_of_seed(id_seed(file_key@, now_text@, version@)),
        r@.len() == 20,
        r@.take(4) == "fig_"@,
{
    let seed = file_key.to_owned().concat(":").concat(now_text).concat(":").concat(version);
    proof {
        reveal_strlit(":");
        assert(seed@ == id_seed(file_key@, now_text@, version@));
    }
    let seed_bytes = seed.as_str().as_bytes_vec();
    let digest = sha256(&seed_bytes);
    let mut prefix: Vec<u8> = Vec::new();
    let mut i: usize = 0;
    while i < 8
        invariant
            i <= 8,
            digest@.len() == 32,
            prefix@ =~= digest@.take(i as int),
        decreases 8 - i,
    {
        prefix.push(digest[i]);
        i = i + 1;
    }
    let digits = hex_encode(&prefix);
    let r = "fig_".to_owned().concat(digits.as_str());
    proof {
        reveal_strlit("fig_");
        assert(prefix@ =~= sha256_of(encode_utf8(seed@)).take(8));
        assert(r@ == id_of_seed(id_seed(file_key@, now_text@, version@)));
        assert(r@.len() == 20);
        assert(r@.take(4) =~= "fig_"@);
    }
    r
}

impl FigmaFile {
    /// A fresh system identifier for this record, derived from its file
    /// key, the clock, and its version (`unknown` when absent). Twenty
    /// characters, starting with `fig_`.
    pub fn generate_file_id(&self) -> (r: String)
        ensures
            r@.len() == 20,
            r@.take(4) == "fig_"@,
    {
        let now_text = now_millis_text();
        let version: &str = match &self.version {
            Some(v) => v.as_str(),
            None => "unknown",
        };
        file_id_from(self.file_key.as_str(), now_text.as_str(), version)
    }
}

} // verus!
