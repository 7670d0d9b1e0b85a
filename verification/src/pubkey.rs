//! The agent key that registration sends: the first 64 lowercase hex
//! digits of the SHA-256 digest of `"beacon-rust-agent-"` followed by the
//! agent's name.

use sha2::Digest;
use vstd::prelude::*;
use vstd::string::StrSliceExecFns;
use vstd::string::StringExecFns;
use vstd::utf8::encode_utf8;

verus! {

/// The SHA-256 digest of `data`.
pub uninterp spec fn sha256(data: Seq<u8>) -> Seq<u8>;

/// Calls `sha2::Sha256::digest`. Trusted to return the SHA-256 digest of
/// `data`, which this library names `sha256` and does not spell out, and
/// to return 32 bytes (the output size `U32` of `Sha256` in sha2's source).
#[verifier::external_body]
fn sha256_digest(data: &[u8]) -> (digest: Vec<u8>)
    ensures
        digest@ == sha256(data@),
        digest@.len() == 32,
{
    sha2::Sha256::digest(data).to_vec()
}

/// The lowercase hex digit for `n < 16`.
pub open spec fn hex_digit(n: u8) -> char {
    if n < 10 {
        (48 + n) as char
    } else {
        (87 + n) as char
    }
}

/// Whether `c` is one of `0-9` or `a-f`.
pub open spec fn is_lower_hex(c: char) -> bool {
    ('0' <= c && c <= '9') || ('a' <= c && c <= 'f')
}

/// Lowercase hex encoding: two digits per byte, high nibble first.
pub open spec fn hex_lower(data: Seq<u8>) -> Seq<char>
    decreases data.len(),
{
    if data.len() == 0 {
        Seq::empty()
    } else {
        seq![hex_digit(data[0] / 16), hex_digit(data[0] % 16)] + hex_lower(data.drop_first())
    }
}

/// Calls `hex::encode`. Trusted to return the lowercase hex encoding of
/// `data`, two digits per byte from `b"0123456789abcdef"`, high nibble first,
/// as the crate's `BytesToHexChars` iterator produces them.
#[verifier::external_body]
fn hex_encode(data: &[u8]) -> (text: String)
    ensures
        text@ == hex_lower(data@),
{
    hex::encode(data)
}

/// The hex encoding has two characters per byte, each a lowercase hex digit.
pub proof fn lemma_hex_lower_shape(data: Seq<u8>)
    ensures
        hex_lower(data).len() == 2 * data.len(),
        forall|i: int| 0 <= i < hex_lower(data).len() ==> is_lower_hex(#[trigger] hex_lower(data)[i]),
    decreases data.len(),
{
    if data.len() > 0 {
        lemma_hex_lower_shape(data.drop_first());
        let head = seq![hex_digit(data[0] / 16), hex_digit(data[0] % 16)];
        let rest = hex_lower(data.drop_first());
        assert forall|i: int| 0 <= i < hex_lower(data).len() implies is_lower_hex(
            #[trigger] hex_lower(data)[i],
        ) by {
            if i < 2 {
                assert(hex_lower(data)[i] == head[i]);
            } else {
                assert(hex_lower(data)[i] == rest[i - 2]);
            }
        }
    }
}

/// The text that is hashed for an agent called `name`.
pub open spec fn key_seed(name: Seq<char>) -> Seq<char> {
    "beacon-rust-agent-"@ + name
}

/// The agent key of an agent called `name`.
pub open spec fn agent_pubkey(name: Seq<char>) -> Seq<char> {
    hex_lower(sha256(encode_utf8(key_seed(name)))).subrange(0, 64)
}

/// The hashed text is the prefix `beacon-rust-agent-` followed by the whole
/// name: it is 18 characters longer than the name, ends with the name, and
/// different names give different texts.
pub proof fn lemma_key_seed_holds_whole_name(name: Seq<char>, other: Seq<char>)
    ensures
        key_seed(name) == "beacon-rust-agent-"@ + name,
        key_seed(name).len() == name.len() + 18,
        key_seed(name).subrange(18, key_seed(name).len() as int) == name,
        name != other ==> key_seed(name) != key_seed(other),
{
    reveal_strlit("beacon-rust-agent-");
    let p = "beacon-rust-agent-"@;
    assert((p + name).subrange(18, (p + name).len() as int) =~= name);
    assert((p + other).subrange(18, (p + other).len() as int) =~= other);
}

/// Derives the agent key from its name: the first 64 characters of the
/// lowercase hex SHA-256 digest of `beacon-rust-agent-{name}`. The digest
/// is 32 bytes, so the key is its whole hex encoding: 64 lowercase hex
/// digits, and the same name always gives the same key.
pub fn derive_pubkey(name: &str) -> (pubkey: String)
    ensures
        pubkey@ == agent_pubkey(name@),
        sha256(encode_utf8(key_seed(name@))).len() == 32,
        pubkey@ == hex_lower(sha256(encode_utf8(key_seed(name@)))),
        pubkey@ == hex_lower(sha256(encode_utf8("beacon-rust-agent-"@ + name@))),
        sha256(encode_utf8("beacon-rust-agent-"@ + name@)).len() == 32,
        pubkey@.len() == 64,
        forall|i: int| 0 <= i < 64 ==> is_lower_hex(#[trigger] pubkey@[i]),
{
    let mut seed = String::from_str("beacon-rust-agent-");
    seed.append(name);
    let digest = sha256_digest(seed.as_str().as_bytes());
    let hex = hex_encode(digest.as_slice());
    proof {
        lemma_hex_lower_shape(digest@);
    }
    let head = hex.as_str().substring_char(0, 64);
    assert forall|i: int| 0 <= i < 64 implies is_lower_hex(#[trigger] head@[i]) by {
        assert(head@[i] == hex@[i]);
    }
    assert(head@ =~= hex@);
    String::from_str(head)
}

} // verus!
