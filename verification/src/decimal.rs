//! Decimal rendering of signed integers, as `{}` formatting writes them.

use vstd::prelude::*;

verus! {

/// The character of the decimal digit `d`, for `d < 10`.
pub open spec fn digit_char(d: nat) -> char {
    (48 + d) as char
}

/// The decimal digits of `n`, most significant first, with no leading zero.
pub open spec fn decimal_digits(n: nat) -> Seq<char>
    decreases n,
{
    if n < 10 {
        seq![digit_char(n)]
    } else {
        decimal_digits(n / 10).push(digit_char(n % 10))
    }
}

/// The decimal text of `n`: a minus sign for a negative number, then the
/// digits of its magnitude.
pub open spec fn decimal(n: int) -> Seq<char> {
    if n < 0 {
        seq!['-'] + decimal_digits((-n) as nat)
    } else {
        decimal_digits(n as nat)
    }
}

/// The number that a sequence of decimal digits denotes.
pub open spec fn digits_value(s: Seq<char>) -> int
    decreases s.len(),
{
    if s.len() == 0 {
        0
    } else {
        digits_value(s.drop_last()) * 10 + (s.last() as int - 48)
    }
}

/// Whether `c` is one of the characters `0` to `9`.
pub open spec fn is_digit(c: char) -> bool {
    '0' <= c <= '9'
}

/// The digits of `n` are decimal digits, do not start with a zero unless
/// `n` is zero, and denote `n` again.
pub proof fn lemma_decimal_digits_denote(n: nat)
    ensures
        decimal_digits(n).len() > 0,
        forall|i: int| 0 <= i < decimal_digits(n).len() ==> '0' <= #[trigger] decimal_digits(n)[i] <= '9',
        decimal_digits(n)[0] == '0' ==> n == 0,
        digits_value(decimal_digits(n)) == n,
    decreases n,
{
    if n >= 10 {
        lemma_decimal_digits_denote(n / 10);
        let s = decimal_digits(n);
        assert(s.drop_last() =~= decimal_digits(n / 10));
        assert(s[0] == decimal_digits(n / 10)[0]);
    } else {
        assert(digits_value(decimal_digits(n).drop_last()) == 0);
    }
}

/// Distinct numbers are written differently.
pub proof fn lemma_decimal_injective(a: int, b: int)
    requires
        decimal(a) == decimal(b),
    ensures
        a == b,
{
    let da = if a < 0 { (-a) as nat } else { a as nat };
    let db = if b < 0 { (-b) as nat } else { b as nat };
    lemma_decimal_digits_denote(da);
    lemma_decimal_digits_denote(db);
    if a < 0 && b < 0 {
        assert(decimal_digits(da) =~= decimal(a).skip(1));
        assert(decimal_digits(db) =~= decimal(b).skip(1));
    } else if a < 0 {
        assert(decimal(a)[0] == '-');
        assert(is_digit(decimal_digits(db)[0]));
    } else if b < 0 {
        assert(decimal(b)[0] == '-');
        assert(is_digit(decimal_digits(da)[0]));
    }
}

/// The decimal text of a number starts with a minus sign exactly when the
/// number is negative, and what follows the sign is the magnitude's digits.
pub proof fn lemma_decimal_sign(n: int)
    ensures
        decimal(n)[0] == '-' <==> n < 0,
        n < 0 ==> decimal(n).skip(1) == decimal_digits((-n) as nat),
        n >= 0 ==> decimal(n) == decimal_digits(n as nat),
{
    let m = if n < 0 { (-n) as nat } else { n as nat };
    lemma_decimal_digits_denote(m);
    if n < 0 {
        assert(decimal(n).skip(1) =~= decimal_digits(m));
    } else {
        assert('0' <= decimal_digits(m)[0] <= '9');
    }
}

/// The text of one digit.
fn digit_str(d: u8) -> (r: &'static str)
    requires
        d < 10,
    ensures
        r@ == seq![digit_char(d as nat)],
{
    proof {
        reveal_strlit("0");
        reveal_strlit("1");
        reveal_strlit("2");
        reveal_strlit("3");
        reveal_strlit("4");
        reveal_strlit("5");
        reveal_strlit("6");
        reveal_strlit("7");
        reveal_strlit("8");
        reveal_strlit("9");
    }
    match d {
        0 => "0",
        1 => "1",
        2 => "2",
        3 => "3",
        4 => "4",
        5 => "5",
        6 => "6",
        7 => "7",
        8 => "8",
        _ => "9",
    }
}

/// The characters of digits given least significant first.
pub open spec fn digits_text(ds: Seq<u8>) -> Seq<char> {
    ds.reverse().map_values(|d: u8| digit_char(d as nat))
}

/// Writes `n` in decimal, as `n.to_string()` does.
pub fn decimal_string(n: i64) -> (s: String)
    ensures
        s@ == decimal(n as int),
{
    let negative = n < 0;
    let magnitude: u64 = if negative {
        ((-(n + 1)) as u64) + 1
    } else {
        n as u64
    };
    let ghost total = magnitude as nat;
    let mut m: u64 = magnitude;
    let mut digits: Vec<u8> = Vec::new();
    assert(digits_text(digits@) =~= Seq::<char>::empty());
    loop
        invariant_except_break
            decimal_digits(total) == decimal_digits(m as nat) + digits_text(digits@),
        invariant
            forall|i: int| 0 <= i < digits@.len() ==> digits@[i] < 10,
        ensures
            decimal_digits(total) == digits_text(digits@),
        decreases m,
    {
        let d = (m % 10) as u8;
        let ghost before = digits@;
        digits.push(d);
        assert(digits_text(digits@) =~= seq![digit_char(d as nat)] + digits_text(before));
        if m < 10 {
            assert(decimal_digits(m as nat) =~= seq![digit_char(d as nat)]);
            break;
        }
        assert(decimal_digits(m as nat) == decimal_digits((m / 10) as nat).push(digit_char(d as nat)));
        assert(decimal_digits(m as nat) + digits_text(before)
            =~= decimal_digits((m / 10) as nat) + digits_text(digits@));
        m = m / 10;
    }
    let mut s = if negative {
        proof {
            reveal_strlit("-");
        }
        String::from_str("-")
    } else {
        String::new()
    };
    let ghost prefix = s@;
    let len = digits.len();
    let mut i = len;
    assert(digits@.subrange(len as int, len as int) =~= Seq::<u8>::empty());
    assert(digits_text(Seq::<u8>::empty()) =~= Seq::<char>::empty());
    while i > 0
        invariant
            i <= len == digits@.len(),
            forall|k: int| 0 <= k < digits@.len() ==> digits@[k] < 10,
            s@ == prefix + digits_text(digits@.subrange(i as int, len as int)),
        decreases i,
    {
        i = i - 1;
        let d = digits[i];
        let ghost before = s@;
        s.append(digit_str(d));
        assert(digits_text(digits@.subrange(i as int, len as int))
            =~= digits_text(digits@.subrange(i + 1, len as int)) + seq![digit_char(d as nat)]);
    }
    assert(digits@.subrange(0, len as int) =~= digits@);
    s
}

} // verus!
