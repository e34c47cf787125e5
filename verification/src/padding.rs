//! Padding: random alphanumeric text that brings a serialized artifact up to
//! a requested total length.

use rand::Rng;
use vstd::prelude::*;

use crate::alphabet::{all_alphanumeric, is_alphanumeric_byte, lemma_alphanumeric_byte_as_char};

verus! {

/// The number of padding symbols needed to reach `target` when `overhead`
/// symbols are already taken by fixed structure: the difference, or nothing
/// where the target cannot be reached.
pub open spec fn padding_len(target: usize, overhead: usize) -> nat {
    if target < overhead {
        0
    } else {
        (target - overhead) as nat
    }
}

/// `String::push` appends the given character to the end of the string.
pub assume_specification[ String::push ](s: &mut String, c: char)
    ensures
        final(s)@ == old(s)@.push(c),
;

/// One draw of `rand::Rng::sample` on the thread-local generator with the
/// distribution `rand::distributions::Alphanumeric`, which yields the ASCII
/// code of a letter or digit. Which one is left open: it is random.
#[verifier::external_body]
fn sample_alphanumeric() -> (b: u8)
    ensures
        is_alphanumeric_byte(b),
{
    rand::thread_rng().sample(rand::distributions::Alphanumeric)
}

/// Generates a random alphanumeric string that, together with `offset`
/// symbols of surrounding structure, is `len` symbols long. Where `len` is
/// below `offset` the string is empty.
pub fn random_string(len: usize, offset: usize) -> (data: String)
    ensures
        data@.len() == padding_len(len, offset),
        all_alphanumeric(data@),
{
    let mut data = String::new();
    if len < offset {
        return data;
    }
    let count: usize = len - offset;
    let mut i: usize = 0;
    while i < count
        invariant
            i <= count,
            data@.len() == i,
            all_alphanumeric(data@),
        decreases count - i,
    {
        let b: u8 = sample_alphanumeric();
        proof {
            lemma_alphanumeric_byte_as_char(b);
        }
        data.push(b as char);
        i += 1;
    }
    data
}

} // verus!
