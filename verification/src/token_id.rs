//! Token identifiers: unsigned 256-bit integers, written in decimal.

use ethers::abi::ethereum_types::FromDecStrErr;
use ethers::types::U256;
use vstd::arithmetic::div_mod::lemma_fundamental_div_mod_converse;
use vstd::prelude::*;
use vstd::std_specs::cmp::PartialEqSpecImpl;

verus! {

/// Two to the power 64.
pub open spec fn pow2_64() -> nat {
    0x1_0000_0000_0000_0000nat
}

/// Two to the power 128.
pub open spec fn pow2_128() -> nat {
    0x1_0000_0000_0000_0000_0000_0000_0000_0000nat
}

/// Two to the power 192.
pub open spec fn pow2_192() -> nat {
    0x1_0000_0000_0000_0000_0000_0000_0000_0000_0000_0000_0000_0000nat
}

/// Two to the power 256: the first number that is no token id.
pub open spec fn pow2_256() -> nat {
    0x1_0000_0000_0000_0000_0000_0000_0000_0000_0000_0000_0000_0000_0000_0000_0000_0000nat
}

/// The number that four 64-bit words stand for, least significant word first.
pub open spec fn limbs_value(limbs: Seq<u64>) -> nat {
    limbs[0] as nat + limbs[1] as nat * pow2_64() + limbs[2] as nat * pow2_128() + limbs[3] as nat
        * pow2_192()
}

/// The identifier of one token of a contract: an unsigned integer below two to
/// the power 256, held as four 64-bit words, least significant first.
#[derive(Clone, Copy, Debug, Eq, Hash)]
pub struct TokenId {
    /// The four words, least significant first.
    pub limbs: [u64; 4],
}

impl PartialEq for TokenId {
    fn eq(&self, other: &TokenId) -> (r: bool) {
        proof {
            if self.limbs[0] == other.limbs[0] && self.limbs[1] == other.limbs[1] && self.limbs[2]
                == other.limbs[2] && self.limbs[3] == other.limbs[3] {
                assert(self.limbs =~= other.limbs);
            }
        }
        self.limbs[0] == other.limbs[0] && self.limbs[1] == other.limbs[1] && self.limbs[2]
            == other.limbs[2] && self.limbs[3] == other.limbs[3]
    }
}

impl PartialEqSpecImpl for TokenId {
    open spec fn obeys_eq_spec() -> bool {
        true
    }

    open spec fn eq_spec(&self, other: &TokenId) -> bool {
        *self == *other
    }
}

impl View for TokenId {
    type V = nat;

    open spec fn view(&self) -> nat {
        limbs_value(self.limbs@)
    }
}

/// Why a text is not the decimal form of a token id.
#[derive(Clone, Copy, Debug, PartialEq, Eq, Structural)]
pub enum TokenIdError {
    /// The text is empty.
    Empty,
    /// A character is not one of the digits `0` to `9`.
    InvalidCharacter,
    /// The number does not fit into 256 bits.
    InvalidLength,
}

impl TokenIdError {
    /// What the error says.
    pub open spec fn message(self) -> Seq<char> {
        match self {
            TokenIdError::Empty => "the text is empty"@,
            TokenIdError::InvalidCharacter => "a character is not in the range 0-9"@,
            TokenIdError::InvalidLength => "the number is too large for the type"@,
        }
    }

    /// What the error says.
    pub fn to_string(&self) -> (r: String)
        ensures
            r@ == self.message(),
    {
        match self {
            TokenIdError::Empty => "the text is empty".to_owned(),
            TokenIdError::InvalidCharacter => "a character is not in the range 0-9".to_owned(),
            TokenIdError::InvalidLength => "the number is too large for the type".to_owned(),
        }
    }
}

/// Whether `c` is one of the digits `0` to `9`.
pub open spec fn is_decimal_digit(c: char) -> bool {
    '0' <= c <= '9'
}

/// The number that the digit `c` stands for.
pub open spec fn digit_value(c: char) -> nat
    recommends
        is_decimal_digit(c),
{
    (c as nat - '0' as nat) as nat
}

/// The digit that stands for `d`.
pub open spec fn digit_char(d: nat) -> char
    recommends
        d < 10,
{
    (d + '0' as nat) as char
}

/// What reading the digits of `text` gives. The characters are taken from
/// left to right; the first one that is no digit, or that carries the number
/// to two to the power 256 or beyond, decides the error. No digits at all add
/// up to zero.
pub open spec fn parse_decimal(text: Seq<char>) -> Result<nat, TokenIdError>
    decreases text.len(),
{
    if text.len() == 0 {
        Ok(0)
    } else {
        match parse_decimal(text.drop_last()) {
            Err(e) => Err(e),
            Ok(n) => if !is_decimal_digit(text.last()) {
                Err(TokenIdError::InvalidCharacter)
            } else if n * 10 + digit_value(text.last()) >= pow2_256() {
                Err(TokenIdError::InvalidLength)
            } else {
                Ok(n * 10 + digit_value(text.last()))
            },
        }
    }
}

/// What reading `text` as the decimal form of a token id gives: the empty
/// text is no decimal form, every other text is read digit by digit.
pub open spec fn read_decimal(text: Seq<char>) -> Result<nat, TokenIdError> {
    if text.len() == 0 {
        Err(TokenIdError::Empty)
    } else {
        parse_decimal(text)
    }
}

/// The decimal form of `n`: its digits without leading zeros, `0` for zero.
pub open spec fn decimal_digits(n: nat) -> Seq<char>
    decreases n,
{
    if n < 10 {
        seq![digit_char(n)]
    } else {
        decimal_digits(n / 10).push(digit_char(n % 10))
    }
}

/// Every token id is below two to the power 256.
pub proof fn lemma_token_id_bound(id: TokenId)
    ensures
        id@ < pow2_256(),
{
}

/// Each of four words can be read off the number that they stand for.
pub proof fn lemma_limbs_of_value(limbs: Seq<u64>)
    requires
        limbs.len() == 4,
    ensures
        limbs[0] as nat == limbs_value(limbs) % pow2_64(),
        limbs[1] as nat == (limbs_value(limbs) / pow2_64()) % pow2_64(),
        limbs[2] as nat == (limbs_value(limbs) / pow2_128()) % pow2_64(),
        limbs[3] as nat == limbs_value(limbs) / pow2_192(),
{
    let value = limbs_value(limbs) as int;
    let w0 = limbs[0] as int;
    let w1 = limbs[1] as int;
    let w2 = limbs[2] as int;
    let w3 = limbs[3] as int;
    let above0 = w1 + w2 * pow2_64() + w3 * pow2_128();
    let above1 = w2 + w3 * pow2_64();
    assert(value == above0 * pow2_64() + w0);
    lemma_fundamental_div_mod_converse(value, pow2_64() as int, above0, w0);
    assert(above0 == above1 * pow2_64() + w1);
    lemma_fundamental_div_mod_converse(above0, pow2_64() as int, above1, w1);
    assert(value == above1 * pow2_128() + (w0 + w1 * pow2_64()));
    lemma_fundamental_div_mod_converse(value, pow2_128() as int, above1, w0 + w1 * pow2_64());
    lemma_fundamental_div_mod_converse(above1, pow2_64() as int, w3, w2);
    assert(value == w3 * pow2_192() + (w0 + w1 * pow2_64() + w2 * pow2_128()));
    lemma_fundamental_div_mod_converse(
        value,
        pow2_192() as int,
        w3,
        w0 + w1 * pow2_64() + w2 * pow2_128(),
    );
}

/// Two token ids of the same number are the same token id.
pub proof fn lemma_token_id_by_value(a: TokenId, b: TokenId)
    requires
        a@ == b@,
    ensures
        a == b,
{
    lemma_limbs_of_value(a.limbs@);
    lemma_limbs_of_value(b.limbs@);
    assert(a.limbs =~= b.limbs);
}

/// The decimal form of a number has at least one character, and all of its
/// characters are digits.
pub proof fn lemma_decimal_digits_are_digits(n: nat)
    ensures
        decimal_digits(n).len() >= 1,
        forall|i: int|
            0 <= i < decimal_digits(n).len() ==> is_decimal_digit(#[trigger] decimal_digits(n)[i]),
    decreases n,
{
    if n >= 10 {
        lemma_decimal_digits_are_digits(n / 10);
    }
}

/// Reading the decimal form of a number below two to the power 256 gives
/// that number back.
pub proof fn lemma_decimal_round_trip(n: nat)
    requires
        n < pow2_256(),
    ensures
        parse_decimal(decimal_digits(n)) == Ok::<nat, TokenIdError>(n),
        read_decimal(decimal_digits(n)) == Ok::<nat, TokenIdError>(n),
    decreases n,
{
    let text = decimal_digits(n);
    if n < 10 {
        assert(text.drop_last() =~= Seq::<char>::empty());
        assert(parse_decimal(text.drop_last()) == Ok::<nat, TokenIdError>(0));
        assert(text.last() == digit_char(n));
    } else {
        lemma_decimal_round_trip(n / 10);
        assert(text.drop_last() =~= decimal_digits(n / 10));
        assert(text.last() == digit_char(n % 10));
    }
}

/// Two numbers below two to the power 256 that have the same decimal form
/// are the same number.
pub proof fn lemma_decimal_digits_injective(a: nat, b: nat)
    requires
        a < pow2_256(),
        b < pow2_256(),
        decimal_digits(a) == decimal_digits(b),
    ensures
        a == b,
{
    lemma_decimal_round_trip(a);
    lemma_decimal_round_trip(b);
}

/// Calls `U256::from_dec_str`. That function reads the bytes of the text from
/// left to right into a number that starts at zero. A byte that is no ASCII
/// digit ends it with `InvalidCharacter`; a digit that takes ten times the
/// number plus the digit out of 256 bits ends it with `InvalidLength`. A
/// character that is no digit has no ASCII digit as its first byte, so the
/// same holds character by character. The empty text gives zero.
#[verifier::external_body]
fn u256_from_dec_str(text: &str) -> (r: Result<[u64; 4], TokenIdError>)
    ensures
        match r {
            Ok(limbs) => parse_decimal(text@) == Ok::<nat, TokenIdError>(limbs_value(limbs@)),
            Err(e) => parse_decimal(text@) == Err::<nat, TokenIdError>(e),
        },
{
    match U256::from_dec_str(text) {
        Ok(n) => Ok(n.0),
        Err(FromDecStrErr::InvalidCharacter) => Err(TokenIdError::InvalidCharacter),
        Err(FromDecStrErr::InvalidLength) => Err(TokenIdError::InvalidLength),
    }
}

/// Calls `to_string` on a `U256`, which formats it with its `Display`: the
/// number in decimal without leading zeros, and `0` for zero.
#[verifier::external_body]
fn u256_to_string(limbs: [u64; 4]) -> (r: String)
    ensures
        r@ == decimal_digits(limbs_value(limbs@)),
{
    U256(limbs).to_string()
}

impl TokenId {
    /// The token id zero.
    pub fn zero() -> (r: TokenId)
        ensures
            r@ == 0,
    {
        TokenId { limbs: [0, 0, 0, 0] }
    }

    /// Reads a token id from its decimal form: one digit or more, leading
    /// zeros allowed. The empty text is refused.
    pub fn from_dec_str(text: &str) -> (r: Result<TokenId, TokenIdError>)
        ensures
            match r {
                Ok(id) => read_decimal(text@) == Ok::<nat, TokenIdError>(id@),
                Err(e) => read_decimal(text@) == Err::<nat, TokenIdError>(e),
            },
    {
        if text.is_empty() {
            return Err(TokenIdError::Empty);
        }
        match u256_from_dec_str(text) {
            Ok(limbs) => Ok(TokenId { limbs }),
            Err(e) => Err(e),
        }
    }

    /// The decimal form of the token id.
    pub fn to_string(&self) -> (r: String)
        ensures
            r@ == decimal_digits(self@),
    {
        u256_to_string(self.limbs)
    }
}

} // verus!
