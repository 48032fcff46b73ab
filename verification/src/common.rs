//! What the library is built with.

use vstd::prelude::*;
use crate::pack_parse_attributes::chars_of;

verus! {

/// `String::push` of std: the character is added at the end.
pub assume_specification[ String::push ](s: &mut String, ch: char)
    ensures
        final(s)@ == old(s)@.push(ch),
;

/// Whether a character is an upper case letter.
pub uninterp spec fn spec_is_uppercase(c: char) -> bool;

/// The characters that a character turns into in lower case.
pub uninterp spec fn spec_char_lowercase(c: char) -> Seq<char>;

/// `char::is_uppercase` of std. The contract gives the answer a name and
/// says no more.
#[verifier::external_body]
fn is_uppercase(c: char) -> (r: bool)
    ensures
        r == spec_is_uppercase(c),
{
    c.is_uppercase()
}

/// `char::to_lowercase` of std, whose characters are collected. The
/// contract gives them a name and says no more.
#[verifier::external_body]
fn char_lowercase(c: char) -> (r: Vec<char>)
    ensures
        r@ == spec_char_lowercase(c),
{
    c.to_lowercase().collect()
}

/// The first `n` characters of a name in snake case: an upper case
/// letter turns into lower case, behind an underscore unless it is the
/// first character; every other character stays.
pub open spec fn spec_snake_case(name: Seq<char>, n: nat) -> Seq<char>
    decreases n,
{
    if n == 0 {
        Seq::<char>::empty()
    } else {
        let head = spec_snake_case(name, (n - 1) as nat);
        let c = name[n - 1];
        if spec_is_uppercase(c) {
            if n == 1 {
                head + spec_char_lowercase(c)
            } else {
                head.push('_') + spec_char_lowercase(c)
            }
        } else {
            head.push(c)
        }
    }
}

/// A name in snake case: `DebugField` turns into `debug_field`.
pub fn to_snake_case(name: &str) -> (r: String)
    ensures
        r@ == spec_snake_case(name@, name@.len()),
{
    let chars = chars_of(name);
    let mut r = String::new();
    let mut i: usize = 0;
    while i < chars.len()
        invariant
            i <= chars@.len(),
            chars@ == name@,
            r@ == spec_snake_case(name@, i as nat),
        decreases chars@.len() - i,
    {
        let c = chars[i];
        if is_uppercase(c) {
            if i > 0 {
                r.push('_');
            }
            let lower = char_lowercase(c);
            let ghost before = r@;
            let mut k: usize = 0;
            while k < lower.len()
                invariant
                    k <= lower@.len(),
                    r@ == before + lower@.subrange(0, k as int),
                decreases lower@.len() - k,
            {
                r.push(lower[k]);
                assert(r@ =~= before + lower@.subrange(0, k + 1));
                k += 1;
            }
            assert(r@ =~= before + lower@);
        } else {
            r.push(c);
        }
        i += 1;
    }
    r
}

/// Whether vectors and strings can be had: they always can.
pub fn alloc_supported() -> (r: bool)
    ensures
        r,
{
    true
}

/// Whether the formatting of packed structures for people is part of
/// the library: it is where vectors and strings can be had.
pub fn include_debug_codegen() -> (r: bool)
    ensures
        r,
{
    alloc_supported()
}

} // verus!
