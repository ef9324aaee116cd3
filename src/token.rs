use rand::Rng;
use vstd::prelude::*;

verus! {

/// Number of characters in a subscription token.
pub const TOKEN_LEN: usize = 25;

/// An ASCII letter or digit.
pub open spec fn is_alphanumeric_byte(b: u8) -> bool {
    (0x30 <= b && b <= 0x39) || (0x41 <= b && b <= 0x5A) || (0x61 <= b && b <= 0x7A)
}

/// A subscription token: 25 characters, each an ASCII letter or digit.
pub open spec fn is_subscription_token(s: Seq<char>) -> bool {
    s.len() == TOKEN_LEN && forall|i: int|
        0 <= i < s.len() ==> #[trigger] s[i] as u32 <= 0x7F && is_alphanumeric_byte(
            s[i] as u32 as u8,
        )
}

/// Relies on rand's `Alphanumeric` distribution sampled from `thread_rng()`,
/// a cryptographically secure generator: the sample is one of the 62 ASCII
/// letters and digits.
#[verifier::external_body]
fn random_alphanumeric() -> (b: u8)
    ensures
        is_alphanumeric_byte(b),
{
    rand::thread_rng().sample(rand::distributions::Alphanumeric)
}

/// Relies on `String::push`: appends one character.
#[verifier::external_body]
fn push_char(s: &mut String, c: char)
    ensures
        final(s)@ == old(s)@.push(c),
{
    s.push(c)
}

/// The token spelled by a sequence of drawn bytes, one character each, in
/// the order drawn.
pub open spec fn token_of(draws: Seq<u8>) -> Seq<char> {
    Seq::new(draws.len(), |i: int| draws[i] as char)
}

/// Builds the token from 25 drawn letters and digits, in the order drawn.
pub fn token_from_draws(draws: &Vec<u8>) -> (r: String)
    requires
        draws@.len() == TOKEN_LEN,
        forall|i: int| 0 <= i < draws@.len() ==> is_alphanumeric_byte(#[trigger] draws@[i]),
    ensures
        r@ == token_of(draws@),
        is_subscription_token(r@),
{
    let mut token = String::new();
    let mut i: usize = 0;
    while i < draws.len()
        invariant
            i <= draws@.len(),
            draws@.len() == TOKEN_LEN,
            forall|j: int| 0 <= j < draws@.len() ==> is_alphanumeric_byte(#[trigger] draws@[j]),
            token@ == token_of(draws@.subrange(0, i as int)),
            forall|j: int|
                0 <= j < i ==> #[trigger] token@[j] as u32 <= 0x7F && is_alphanumeric_byte(
                    token@[j] as u32 as u8,
                ),
        decreases draws@.len() - i,
    {
        let b = draws[i];
        push_char(&mut token, b as char);
        assert(token_of(draws@.subrange(0, i as int + 1)) =~= token_of(
            draws@.subrange(0, i as int),
        ).push(b as char));
        i = i + 1;
    }
    assert(draws@.subrange(0, draws@.len() as int) =~= draws@);
    token
}

/// A fresh random subscription token: 25 draws of a letter or digit.
pub fn generate_subscription_token() -> (r: String)
    ensures
        is_subscription_token(r@),
{
    let mut draws: Vec<u8> = Vec::new();
    while draws.len() < TOKEN_LEN
        invariant
            draws@.len() <= TOKEN_LEN,
            forall|j: int| 0 <= j < draws@.len() ==> is_alphanumeric_byte(#[trigger] draws@[j]),
        decreases TOKEN_LEN - draws@.len(),
    {
        draws.push(random_alphanumeric());
    }
    token_from_draws(&draws)
}

} // verus!
