//! The anonymization policy for identity fields: when hiding is on, a value
//! is replaced by the decimal numeral of a deterministic, non-cryptographic
//! digest of it; when hiding is off, the value passes through unchanged.

use vstd::prelude::*;
use std::hash::{DefaultHasher, Hash, Hasher};

verus! {

/// The 64-bit digest that the standard hasher assigns to a character
/// sequence. Its value is fixed by the input alone within one build of the
/// standard library; nothing more is assumed of it.
pub uninterp spec fn digest_of(s: Seq<char>) -> u64;

/// Relies on std's `DefaultHasher`: hashers made by `DefaultHasher::new` all
/// start from the same fixed state, so hashing the same string twice yields
/// the same 64-bit value.
#[verifier::external_body]
fn hash_str(inf: &str) -> (r: u64)
    ensures
        r == digest_of(inf@),
{
    let mut s = DefaultHasher::new();
    inf.hash(&mut s);
    s.finish()
}

/// Relies on `String::from_iter` (reached through `Iterator::collect`): the
/// returned string holds exactly the characters of the iterator, in order.
#[verifier::external_body]
pub(crate) fn chars_to_string(v: &Vec<char>) -> (s: String)
    ensures
        s@ == v@,
{
    v.iter().collect()
}

/// The character for one decimal digit value.
pub open spec fn digit_char(v: int) -> char
    recommends
        0 <= v < 10,
{
    (((48 + v) as u8) as char)
}

/// The decimal numeral of `n`, most significant digit first, with no
/// leading zeros (a single `'0'` for zero).
pub open spec fn dec_chars(n: nat) -> Seq<char>
    decreases n,
{
    if n < 10 {
        seq![digit_char(n as int)]
    } else {
        dec_chars(n / 10).push(digit_char((n % 10) as int))
    }
}

/// Appends the decimal numeral of `n` to `out`.
fn push_dec_chars(n: u64, out: &mut Vec<char>)
    ensures
        final(out)@ == old(out)@ + dec_chars(n as nat),
    decreases n,
{
    if n >= 10 {
        push_dec_chars(n / 10, out);
    }
    let d: u8 = (n % 10) as u8;
    out.push((48 + d) as char);
    proof {
        assert(out@ =~= old(out)@ + dec_chars(n as nat));
    }
}

/// What the policy returns: the input itself when `sec` is off, the decimal
/// numeral of its digest when `sec` is on.
pub open spec fn spec_anonymize(s: Seq<char>, sec: bool) -> Seq<char> {
    if sec {
        dec_chars(digest_of(s) as nat)
    } else {
        s
    }
}

/// Applies the anonymization policy to `inf`: with `sec` set, the digest of
/// `inf` rendered in decimal; without it, `inf` unchanged.
pub fn get_security_info(inf: &str, sec: bool) -> (r: String)
    ensures
        r@ == spec_anonymize(inf@, sec),
{
    if sec {
        let d = hash_str(inf);
        let mut v: Vec<char> = Vec::new();
        push_dec_chars(d, &mut v);
        let r = chars_to_string(&v);
        proof {
            assert(v@ =~= dec_chars(d as nat));
        }
        r
    } else {
        String::from_str(inf)
    }
}

/// With hiding off the policy is the identity: every value passes through
/// unchanged.
pub proof fn lemma_anonymize_transparent(s: Seq<char>)
    ensures
        spec_anonymize(s, false) == s,
{
}

/// With hiding on the policy is deterministic: two results obtained for the
/// same input are the same.
pub proof fn lemma_anonymize_deterministic(s: Seq<char>, r1: Seq<char>, r2: Seq<char>)
    requires
        r1 == spec_anonymize(s, true),
        r2 == spec_anonymize(s, true),
    ensures
        r1 == r2,
{
}

} // verus!
