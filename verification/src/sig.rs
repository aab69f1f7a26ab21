//! Primitives for webhook signature checking: HMAC-SHA256, lower-case hex,
//! and a string comparison that does not exit early.

use vstd::prelude::*;
use vstd::string::StrSliceExecFns;
use hmac::KeyInit;
use hmac::Mac;

verus! {

/// The HMAC-SHA256 tag of `data` under `key`. The tag is a pure function of
/// key and data; its value is the hmac/sha2 crates' business, so it is only
/// named here, never defined.
pub uninterp spec fn spec_hmac_sha256(key: Seq<u8>, data: Seq<u8>) -> Seq<u8>;

/// Relies on `hmac::Hmac<sha2::Sha256>` (`new_from_slice`, `update`,
/// `finalize`): the tag depends on key and data alone, and a SHA-256 tag is
/// 32 bytes. `new_from_slice` accepts keys of any length for HMAC.
#[verifier::external_body]
pub(crate) fn hmac_sha256(key: &[u8], data: &[u8]) -> (r: Vec<u8>)
    ensures
        r@ == spec_hmac_sha256(key@, data@),
        r@.len() == 32,
{
    let mut mac = <hmac::Hmac<sha2::Sha256> as KeyInit>::new_from_slice(key).expect(
        "HMAC accepts keys of any length",
    );
    mac.update(data);
    mac.finalize().into_bytes().to_vec()
}

/// The lower-case hex digit for a nibble.
pub open spec fn hex_digit_lower(n: u8) -> char
    recommends
        n < 16,
{
    if n < 10 {
        (n + 48) as char  // '0'..='9'
    } else {
        (n + 87) as char  // 'a'..='f'
    }
}

/// Lower-case hex encoding: two digits per byte, high nibble first.
pub open spec fn spec_hex_lower(data: Seq<u8>) -> Seq<char>
    decreases data.len(),
{
    if data.len() == 0 {
        seq![]
    } else {
        seq![hex_digit_lower(data.first() / 16), hex_digit_lower(data.first() % 16)]
            + spec_hex_lower(data.drop_first())
    }
}

/// A lower-case hex encoding is twice as long as its input and every one
/// of its characters is a decimal digit or one of `a` to `f`.
pub proof fn lemma_hex_lower_chars(data: Seq<u8>)
    ensures
        spec_hex_lower(data).len() == 2 * data.len(),
        forall|i: int|
            0 <= i < 2 * data.len() ==> ('0' <= #[trigger] spec_hex_lower(data)[i]
                && spec_hex_lower(data)[i] <= '9') || ('a' <= spec_hex_lower(data)[i]
                && spec_hex_lower(data)[i] <= 'f'),
    decreases data.len(),
{
    if data.len() > 0 {
        lemma_hex_lower_chars(data.drop_first());
        assert forall|i: int|
            0 <= i < 2 * data.len() implies ('0' <= #[trigger] spec_hex_lower(data)[i]
            && spec_hex_lower(data)[i] <= '9') || ('a' <= spec_hex_lower(data)[i]
            && spec_hex_lower(data)[i] <= 'f') by {
            if i >= 2 {
                assert(spec_hex_lower(data)[i] == spec_hex_lower(data.drop_first())[i - 2]);
            }
        }
    }
}

/// Relies on `hex::encode`: lower-case hex, two digits per byte, high
/// nibble first.
#[verifier::external_body]
pub(crate) fn hex_lower(data: &[u8]) -> (r: String)
    ensures
        r@ == spec_hex_lower(data@),
{
    hex::encode(data)
}

/// Character-wise string comparison. Unlike a library comparison it never
/// exits early on the first differing character (only the lengths decide
/// how long it runs), which is what a signature check wants.
pub fn str_eq_late(a: &str, b: &str) -> (r: bool)
    ensures
        r == (a@ == b@),
{
    let alen = a.unicode_len();
    let blen = b.unicode_len();
    if alen != blen {
        return false;
    }
    let mut eq = true;
    for i in 0..alen
        invariant
            alen == a@.len(),
            alen == b@.len(),
            eq == (forall|j: int| 0 <= j < i ==> a@[j] == b@[j]),
    {
        let same = a.get_char(i) == b.get_char(i);
        eq = eq && same;
    }
    if eq {
        proof {
            assert(a@ =~= b@);
        }
    }
    eq
}

} // verus!
