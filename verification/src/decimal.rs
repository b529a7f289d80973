//! Decimal text of whole numbers.
use vstd::prelude::*;

verus! {

/// The decimal digit of a number below ten.
pub open spec fn digit(n: nat) -> char
    recommends
        n < 10,
{
    (48 + n) as char
}

/// The decimal text of `n`, without sign and without leading zeros.
pub open spec fn decimal_text(n: nat) -> Seq<char>
    decreases n,
{
    if n < 10 {
        seq![digit(n)]
    } else {
        decimal_text(n / 10).push(digit(n % 10))
    }
}

/// Whether `s` consists of decimal digits only.
pub open spec fn all_digits(s: Seq<char>) -> bool {
    forall|i: int| 0 <= i < s.len() ==> '0' <= #[trigger] s[i] <= '9'
}

/// The number that the digits of `s` write out.
pub open spec fn digits_value(s: Seq<char>) -> nat
    recommends
        all_digits(s),
    decreases s.len(),
{
    if s.len() == 0 {
        0
    } else {
        10 * digits_value(s.drop_last()) + (s.last() as int - 48) as nat
    }
}

/// The digits of a number that may carry a plus sign in front.
pub open spec fn unsigned_digits(s: Seq<char>) -> Seq<char> {
    if s.len() > 0 && s[0] == '+' {
        s.skip(1)
    } else {
        s
    }
}

/// Whether `s` writes out a number that fits in 32 bits: an optional plus sign
/// and at least one digit, and nothing else.
pub open spec fn is_u32_text(s: Seq<char>) -> bool {
    let digits = unsigned_digits(s);
    digits.len() > 0 && all_digits(digits) && digits_value(digits) <= u32::MAX
}

/// The number that `s` writes out.
pub open spec fn u32_value(s: Seq<char>) -> nat
    recommends
        is_u32_text(s),
{
    digits_value(unsigned_digits(s))
}

/// Reading decimal text gives back the number that was written.
pub proof fn law_decimal_reads_back(n: nat)
    ensures
        decimal_text(n).len() > 0,
        all_digits(decimal_text(n)),
        digits_value(decimal_text(n)) == n,
    decreases n,
{
    if n < 10 {
        let s = decimal_text(n);
        assert(s.drop_last() =~= Seq::<char>::empty());
        assert(digits_value(s.drop_last()) == 0);
    } else {
        law_decimal_reads_back(n / 10);
        assert(decimal_text(n).drop_last() =~= decimal_text(n / 10));
    }
}

/// The decimal text of every 32-bit number is read back as that number.
pub proof fn law_u32_reads_back(n: u32)
    ensures
        is_u32_text(decimal_text(n as nat)),
        u32_value(decimal_text(n as nat)) == n,
{
    law_decimal_reads_back(n as nat);
    assert(decimal_text(n as nat)[0] != '+');
}

/// The text of one digit.
fn digit_str(n: u64) -> (s: &'static str)
    requires
        n < 10,
    ensures
        s@ == seq![digit(n as nat)],
{
    proof {
        reveal_strlit("0");
        reveal_strlit("1");
        reveal_strlit("2");
        reveal_strlit("3");
        reveal_strlit("4");
        reveal_strlit("5");
        reveal_strlit("6");
        reveal_strlit("7");
        reveal_strlit("8");
        reveal_strlit("9");
    }
    match n {
        0 => "0",
        1 => "1",
        2 => "2",
        3 => "3",
        4 => "4",
        5 => "5",
        6 => "6",
        7 => "7",
        8 => "8",
        _ => "9",
    }
}

/// Writes `n` in decimal.
pub fn decimal(n: u64) -> (s: String)
    ensures
        s@ == decimal_text(n as nat),
    decreases n,
{
    if n < 10 {
        digit_str(n).to_owned()
    } else {
        let mut s = decimal(n / 10);
        s.append(digit_str(n % 10));
        assert(s@ =~= decimal_text((n / 10) as nat).push(digit((n % 10) as nat)));
        s
    }
}

/// Decimal text has no leading zeros: only the text of zero starts with one, and
/// it is nothing else.
pub proof fn law_decimal_has_no_leading_zeros(n: nat)
    ensures
        decimal_text(n)[0] == '0' ==> n == 0,
        n < 10 <==> decimal_text(n).len() == 1,
    decreases n,
{
    law_decimal_reads_back(n);
    if n >= 10 {
        law_decimal_reads_back(n / 10);
        law_decimal_has_no_leading_zeros(n / 10);
        assert(decimal_text(n)[0] == decimal_text(n / 10)[0]);
    }
}

/// Different numbers have different decimal texts.
pub proof fn law_decimal_is_unique(a: nat, b: nat)
    requires
        decimal_text(a) == decimal_text(b),
    ensures
        a == b,
{
    law_decimal_reads_back(a);
    law_decimal_reads_back(b);
}

/// What digits write out: nothing is zero, and every further digit counts for
/// its distance from `0` and ten times what stands before it.
pub proof fn law_digits_are_positional(s: Seq<char>, c: char)
    requires
        '0' <= c <= '9',
    ensures
        digits_value(Seq::empty()) == 0,
        digits_value(s.push(c)) == 10 * digits_value(s) + (c as int - '0' as int),
{
    assert(s.push(c).drop_last() =~= s);
}

/// One plus sign in front of a number makes no difference, and every other
/// character that is no digit makes it no number, wherever it stands.
pub proof fn law_plus_sign_is_ignored(s: Seq<char>)
    requires
        s.len() > 0,
        s[0] != '+',
    ensures
        is_u32_text(seq!['+'] + s) <==> is_u32_text(s),
        u32_value(seq!['+'] + s) == u32_value(s),
        is_u32_text(s) <==> (forall|i: int| 0 <= i < s.len() ==> '0' <= #[trigger] s[i] <= '9')
            && digits_value(s) < 0x1_0000_0000,
        u32_value(s) == digits_value(s),
{
    assert((seq!['+'] + s).skip(1) =~= s);
}

} // verus!
