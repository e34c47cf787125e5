//! Request identifiers: short alphanumeric tokens, made by encoding a random
//! number through a seeded scheme that is set up once and shared.

use block_id::{Alphabet, BlockId};
use rand::Rng;
use vstd::prelude::*;

use crate::alphabet::{all_alphanumeric, is_alphanumeric, is_alphanumeric_char};

verus! {

/// The number of symbols of a request identifier.
pub const ID_LENGTH: usize = 4;

/// The number of values that the scheme encodes in `ID_LENGTH` symbols: the
/// size of the alphabet, 62, to the fourth power.
pub const ID_SPACE: u64 = 14_776_336;

/// Whether `s` has the shape of a request identifier: `ID_LENGTH`
/// alphanumeric symbols.
pub open spec fn is_id_text(s: Seq<char>) -> bool {
    s.len() == ID_LENGTH && all_alphanumeric(s)
}

/// The number of digits of `value` in base 62, the size of the alphabet;
/// zero has none.
pub open spec fn base62_digits(value: nat) -> nat
    decreases value,
{
    if value == 0 {
        0
    } else {
        1 + base62_digits(value / 62)
    }
}

/// The number of symbols of the code of `value` under a scheme with the
/// minimum length `min_length`: one per digit in base 62, and at least the
/// minimum.
pub open spec fn code_length(min_length: u8, value: u64) -> nat {
    if base62_digits(value as nat) < min_length {
        min_length as nat
    } else {
        base62_digits(value as nat)
    }
}

/// `block_id::BlockId`, a two-way mapping between numbers and opaque codes.
#[verifier::external_type_specification]
#[verifier::external_body]
#[verifier::reject_recursive_types(T)]
pub struct ExBlockId<T: Copy + core::hash::Hash + Eq>(BlockId<T>);

/// The seed and the minimum length from which `BlockId::new` made a scheme
/// over the alphanumeric alphabet; `None` for a scheme over another
/// alphabet.
pub uninterp spec fn scheme_origin(scheme: BlockId<char>) -> Option<(u128, u8)>;

/// The code that `BlockId::encode_string` gives to `value` under the scheme
/// made from `seed` and `min_length` over the alphanumeric alphabet.
pub uninterp spec fn encoded_id(seed: u128, min_length: u8, value: u64) -> Seq<char>;

/// The text of the identifier of `value` under the scheme of `seed`.
pub open spec fn id_text(seed: u128, value: u64) -> Seq<char> {
    encoded_id(seed, ID_LENGTH as u8, value)
}

/// `BlockId::new` with `Alphabet::alphanumeric()`, the given seed and the
/// given minimum length. The mapping is determined by these three, so the
/// scheme that comes back is the one of `seed` and `min_length`.
#[verifier::external_body]
fn make_scheme(seed: u128, min_length: u8) -> (scheme: BlockId<char>)
    ensures
        scheme_origin(scheme) == Some((seed, min_length)),
{
    BlockId::new(Alphabet::alphanumeric(), seed, min_length)
}

/// `BlockId::encode_string` on a scheme over the alphanumeric alphabet.
/// Such a scheme encodes every number: it writes the number in base 62,
/// pads it with zeros to the minimum length, and then maps digits to digits
/// and at last digits to symbols of the alphabet, so the code has one
/// alphanumeric symbol per digit.
#[verifier::external_body]
fn encode_text(scheme: &BlockId<char>, value: u64) -> (text: Option<String>)
    requires
        scheme_origin(*scheme) is Some,
    ensures
        text is Some,
        scheme_origin(*scheme) matches Some((seed, min_length)) ==> {
            &&& text->0@ == encoded_id(seed, min_length, value)
            &&& text->0@.len() == code_length(min_length, value)
        },
        all_alphanumeric(text->0@),
{
    scheme.encode_string(value)
}

/// One draw of `rand::Rng::gen` on the thread-local generator. Nothing is
/// known of the number: it is random.
#[verifier::external_body]
fn random_u128() -> u128 {
    rand::thread_rng().gen()
}

/// The identifier of one request: `ID_LENGTH` alphanumeric symbols.
pub struct RequestId {
    text: String,
}

impl View for RequestId {
    type V = Seq<char>;

    closed spec fn view(&self) -> Seq<char> {
        self.text@
    }
}

impl RequestId {
    #[verifier::type_invariant]
    spec fn well_formed(self) -> bool {
        is_id_text(self.text@)
    }

    /// Takes `text` as an identifier if it has the shape of one.
    pub fn from_text(text: String) -> (r: Option<RequestId>)
        ensures
            r is Some <==> is_id_text(text@),
            r matches Some(id) ==> id@ == text@,
    {
        if text.as_str().unicode_len() != ID_LENGTH {
            return None;
        }
        let mut i: usize = 0;
        while i < ID_LENGTH
            invariant
                i <= ID_LENGTH,
                text@.len() == ID_LENGTH,
                forall|j: int| 0 <= j < i ==> is_alphanumeric(#[trigger] text@[j]),
            decreases ID_LENGTH - i,
        {
            let c: char = text.as_str().get_char(i);
            if !is_alphanumeric_char(c) {
                return None;
            }
            i += 1;
        }
        Some(RequestId { text })
    }

    /// The identifier as text.
    pub fn as_str(&self) -> (s: &str)
        ensures
            s@ == self@,
            is_id_text(s@),
    {
        proof {
            use_type_invariant(self);
        }
        self.text.as_str()
    }
}

/// A number below `ID_SPACE` has at most `ID_LENGTH` digits in base 62, so
/// its code under a scheme with that minimum length has exactly so many
/// symbols.
proof fn lemma_code_length_in_id_space(value: u64)
    requires
        value < ID_SPACE,
    ensures
        code_length(ID_LENGTH as u8, value) == ID_LENGTH,
{
    reveal_with_fuel(base62_digits, 5);
}

/// The source of request identifiers: one seeded scheme, made once and then
/// only read, so that it can be shared by all requests.
pub struct IdGenerator {
    scheme: BlockId<char>,
}

impl IdGenerator {
    #[verifier::type_invariant]
    spec fn well_formed(self) -> bool {
        scheme_origin(self.scheme) matches Some((_, min_length)) && min_length == ID_LENGTH
    }

    /// The seed that the scheme was made from.
    pub closed spec fn seed(&self) -> u128 {
        match scheme_origin(self.scheme) {
            Some((seed, _)) => seed,
            None => 0,
        }
    }

    /// Whether the scheme writes its codes in the alphanumeric alphabet.
    pub closed spec fn over_alphanumeric(&self) -> bool {
        scheme_origin(self.scheme) is Some
    }

    /// The least number of symbols that a code of the scheme has.
    pub closed spec fn min_length(&self) -> u8 {
        match scheme_origin(self.scheme) {
            Some((_, min_length)) => min_length,
            None => 0,
        }
    }

    /// The generator of the scheme of `seed`: over the alphanumeric
    /// alphabet, with codes of `ID_LENGTH` symbols at least.
    pub fn new(seed: u128) -> (generator: IdGenerator)
        ensures
            generator.seed() == seed,
            generator.over_alphanumeric(),
            generator.min_length() == ID_LENGTH,
    {
        IdGenerator { scheme: make_scheme(seed, ID_LENGTH as u8) }
    }

    /// A generator with a random seed. Of the seed nothing is known; the
    /// alphabet and the length of the codes are those of every generator.
    pub fn random() -> (generator: IdGenerator)
        ensures
            generator.over_alphanumeric(),
            generator.min_length() == ID_LENGTH,
    {
        IdGenerator::new(random_u128())
    }

    /// The identifier that the scheme gives to `value`, taken modulo
    /// `ID_SPACE` so that the code has exactly `ID_LENGTH` symbols.
    pub fn id_for(&self, value: u64) -> (id: RequestId)
        ensures
            id@ == id_text(self.seed(), (value % ID_SPACE) as u64),
            is_id_text(id@),
    {
        proof {
            use_type_invariant(self);
            lemma_code_length_in_id_space((value % ID_SPACE) as u64);
        }
        match encode_text(&self.scheme, value % ID_SPACE) {
            Some(text) => RequestId { text },
            None => vstd::pervasive::unreached(),
        }
    }
}

/// Generates the identifier of a new request: a fresh random number,
/// encoded through the shared scheme.
pub fn generate_id(generator: &IdGenerator) -> (id: RequestId)
    ensures
        is_id_text(id@),
        exists|value: u64| value < ID_SPACE && id@ == #[trigger] id_text(generator.seed(), value),
{
    let draw: u128 = random_u128();
    let value: u64 = (draw % (ID_SPACE as u128)) as u64;
    generator.id_for(value)
}

} // verus!
