use vstd::prelude::*;

verus! {

/// The bits that every random UUID of version 4 has: the version number 4 in
/// bits 76 to 79, and the variant `10` in bits 62 and 63.
pub open spec fn is_uuid_v4(bits: u128) -> bool {
    bits & 0xF000_C000_0000_0000_0000u128 == 0x4000_8000_0000_0000_0000u128
}

/// Calls `uuid::Uuid::new_v4` and hands back the value of `as_u128` on it. The
/// number comes from the random number generator; only its version and variant
/// bits are the same every time.
#[verifier::external_body]
fn random_uuid() -> (bits: u128)
    ensures
        is_uuid_v4(bits),
{
    uuid::Uuid::new_v4().as_u128()
}

/// The character that stands for the digit `m` in base 62: `0` to `9` for the
/// values up to 9, `a` to `z` for those up to 35, `A` to `Z` for the rest.
pub open spec fn base62_digit(m: nat) -> char
    recommends
        m < 62,
{
    if m < 10 {
        (48 + m) as char
    } else if m < 36 {
        (97 + (m - 10)) as char
    } else {
        (65 + (m - 36)) as char
    }
}

/// The number `n` in base 62, lowest digit first. Zero has one digit.
pub open spec fn base62(n: nat) -> Seq<char>
    decreases n,
{
    if n < 62 {
        seq![base62_digit(n)]
    } else {
        seq![base62_digit(n % 62)] + base62(n / 62)
    }
}

/// The characters that are digits in base 62.
pub open spec fn is_base62_char(c: char) -> bool {
    ||| '0' <= c <= '9'
    ||| 'a' <= c <= 'z'
    ||| 'A' <= c <= 'Z'
}

/// The value of a digit in base 62.
pub open spec fn base62_digit_value(c: char) -> nat
    recommends
        is_base62_char(c),
{
    if '0' <= c <= '9' {
        (c as u32 - 48) as nat
    } else if 'a' <= c <= 'z' {
        (c as u32 - 97 + 10) as nat
    } else {
        (c as u32 - 65 + 36) as nat
    }
}

/// The number that `text` stands for in base 62, lowest digit first.
pub open spec fn base62_value(text: Seq<char>) -> nat
    decreases text.len(),
{
    if text.len() == 0 {
        0
    } else {
        base62_digit_value(text[0]) + 62 * base62_value(text.drop_first())
    }
}

/// The `k`th power of 62.
pub open spec fn pow62(k: nat) -> nat
    decreases k,
{
    if k == 0 {
        1
    } else {
        62 * pow62((k - 1) as nat)
    }
}

/// No power of 62 is zero.
pub proof fn lemma_pow62_positive(k: nat)
    ensures
        pow62(k) >= 1,
    decreases k,
{
    if k > 0 {
        lemma_pow62_positive((k - 1) as nat);
    }
}

/// Every digit is a letter or a decimal digit, and stands for its value.
pub proof fn lemma_base62_digit(m: nat)
    requires
        m < 62,
    ensures
        is_base62_char(base62_digit(m)),
        base62_digit_value(base62_digit(m)) == m,
{
}

/// A number written in base 62 is made of letters and decimal digits only,
/// and has at least one of them.
pub proof fn lemma_base62_chars(n: nat)
    ensures
        base62(n).len() >= 1,
        forall|i: int| 0 <= i < base62(n).len() ==> is_base62_char(#[trigger] base62(n)[i]),
    decreases n,
{
    lemma_base62_digit(n % 62);
    if n >= 62 {
        lemma_base62_chars(n / 62);
        let rest = base62(n / 62);
        assert forall|i: int| 0 <= i < base62(n).len() implies is_base62_char(
            #[trigger] base62(n)[i],
        ) by {
            if i > 0 {
                assert(base62(n)[i] == rest[i - 1]);
            }
        }
    }
}

/// What is written can be read back: two numbers with the same text are the
/// same number.
pub proof fn lemma_base62_value(n: nat)
    ensures
        base62_value(base62(n)) == n,
    decreases n,
{
    lemma_base62_digit(n % 62);
    if n < 62 {
        assert(base62(n).drop_first() =~= Seq::<char>::empty());
        assert(base62_value(base62(n).drop_first()) == 0);
    } else {
        lemma_base62_value(n / 62);
        assert(base62(n).drop_first() =~= base62(n / 62));
    }
}

/// A number below the `k`th power of 62 takes `k` digits at most, and one that
/// is not below it takes more than `k`.
pub proof fn lemma_base62_len(n: nat, k: nat)
    ensures
        k >= 1 && n < pow62(k) ==> base62(n).len() <= k,
        n >= pow62(k) ==> base62(n).len() > k,
    decreases k,
{
    if k == 0 {
        lemma_base62_chars(n);
    } else {
        lemma_pow62_positive((k - 1) as nat);
        assert(pow62(k) == 62 * pow62((k - 1) as nat));
        if n >= 62 {
            lemma_base62_len(n / 62, (k - 1) as nat);
        }
    }
}

/// Different numbers are written differently.
pub proof fn law_base62_is_injective(a: nat, b: nat)
    requires
        base62(a) == base62(b),
    ensures
        a == b,
{
    lemma_base62_value(a);
    lemma_base62_value(b);
}

/// A random UUID of version 4, written in base 62, takes between 14 and 22
/// letters and decimal digits.
pub proof fn law_uuid_text(bits: u128)
    requires
        is_uuid_v4(bits),
    ensures
        14 <= base62(bits as nat).len() <= 22,
        forall|i: int|
            0 <= i < base62(bits as nat).len() ==> is_base62_char(#[trigger] base62(bits as nat)[i]),
{
    assert(bits >= 0x4000_0000_0000_0000_0000u128) by (bit_vector)
        requires
            bits & 0xF000_C000_0000_0000_0000u128 == 0x4000_8000_0000_0000_0000u128,
    ;
    reveal_with_fuel(pow62, 23);
    assert(pow62(13) == 200028539268669788905472);
    assert(pow62(22) == 2707803647802660400290261537185326956544);
    lemma_base62_len(bits as nat, 13);
    lemma_base62_len(bits as nat, 22);
    lemma_base62_chars(bits as nat);
}

/// Writes `n` in base 62, lowest digit first.
pub fn encode_base62(n: u128) -> (text: String)
    ensures
        text@ == base62(n as nat),
{
    let mut rest: u128 = n;
    let mut text = String::new();
    loop
        invariant
            text@ + base62(rest as nat) == base62(n as nat),
        decreases rest,
    {
        let m: u8 = (rest % 62) as u8;
        let ghost before = rest;
        let ghost written = text@;
        rest = rest / 62;
        let digit: char = if m < 10 {
            (48u8 + m) as char
        } else if m < 36 {
            (97u8 + (m - 10)) as char
        } else {
            (65u8 + (m - 36)) as char
        };
        assert(digit == base62_digit(before as nat % 62));
        text.push(digit);
        if rest == 0 {
            assert(text@ =~= base62(n as nat));
            return text;
        }
        assert(text@ + base62(rest as nat) =~= written + base62(before as nat));
    }
}

/// Random identifier generator.
pub struct GlobalUniq;

impl GlobalUniq {
    /// A fresh random identifier: a random UUID of version 4, taken as a number
    /// and written in base 62, lowest digit first.
    pub fn unique() -> (id: String)
        ensures
            exists|bits: u128| is_uuid_v4(bits) && id@ == base62(bits as nat),
            14 <= id@.len() <= 22,
            forall|i: int| 0 <= i < id@.len() ==> is_base62_char(#[trigger] id@[i]),
    {
        let bits = random_uuid();
        proof {
            law_uuid_text(bits);
        }
        encode_base62(bits)
    }
}

} // verus!
