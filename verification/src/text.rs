//! Textual rendering of numbers, as the identifiers and names of the
//! cluster use them: decimal, and lower-case hexadecimal with a minimum width.
use vstd::prelude::*;
use vstd::string::StringExecFns;

verus! {

/// The lower-case hexadecimal digit for `d`, which also serves as the
/// decimal digit for `d < 10`.
pub open spec fn digit_char(d: nat) -> char {
    if d == 0 { '0' }
    else if d == 1 { '1' }
    else if d == 2 { '2' }
    else if d == 3 { '3' }
    else if d == 4 { '4' }
    else if d == 5 { '5' }
    else if d == 6 { '6' }
    else if d == 7 { '7' }
    else if d == 8 { '8' }
    else if d == 9 { '9' }
    else if d == 10 { 'a' }
    else if d == 11 { 'b' }
    else if d == 12 { 'c' }
    else if d == 13 { 'd' }
    else if d == 14 { 'e' }
    else { 'f' }
}

/// Positional notation of `n` in base `base` (2..=16), most significant
/// digit first, without leading zeros ("0" for zero).
pub open spec fn digits(n: nat, base: nat) -> Seq<char>
    recommends
        2 <= base <= 16,
    decreases n,
{
    if base < 2 {
        Seq::empty()
    } else if n < base {
        seq![digit_char(n)]
    } else {
        proof {
            lemma_div_shrinks(n, base);
        }
        digits(n / base, base).push(digit_char(n % base))
    }
}

/// Decimal notation of `n`.
pub open spec fn decimal(n: nat) -> Seq<char> {
    digits(n, 10)
}

/// Lower-case hexadecimal notation of `n`.
pub open spec fn hex(n: nat) -> Seq<char> {
    digits(n, 16)
}

/// `count` copies of the character '0'.
pub open spec fn zeros(count: nat) -> Seq<char> {
    Seq::new(count, |i: int| '0')
}

/// Hexadecimal notation of `n`, left-padded with zeros to at least `width`
/// characters (the `{:0width$x}` format).
pub open spec fn hex_padded(n: nat, width: nat) -> Seq<char> {
    if hex(n).len() >= width {
        hex(n)
    } else {
        zeros((width - hex(n).len()) as nat) + hex(n)
    }
}

/// A one-character string holding the digit for `d`.
fn digit_str(d: u64) -> (s: &'static str)
    requires
        d < 16,
    ensures
        s@ == seq![digit_char(d as nat)],
{
    if d == 0 {
        proof { reveal_strlit("0"); }
        "0"
    } else if d == 1 {
        proof { reveal_strlit("1"); }
        "1"
    } else if d == 2 {
        proof { reveal_strlit("2"); }
        "2"
    } else if d == 3 {
        proof { reveal_strlit("3"); }
        "3"
    } else if d == 4 {
        proof { reveal_strlit("4"); }
        "4"
    } else if d == 5 {
        proof { reveal_strlit("5"); }
        "5"
    } else if d == 6 {
        proof { reveal_strlit("6"); }
        "6"
    } else if d == 7 {
        proof { reveal_strlit("7"); }
        "7"
    } else if d == 8 {
        proof { reveal_strlit("8"); }
        "8"
    } else if d == 9 {
        proof { reveal_strlit("9"); }
        "9"
    } else if d == 10 {
        proof { reveal_strlit("a"); }
        "a"
    } else if d == 11 {
        proof { reveal_strlit("b"); }
        "b"
    } else if d == 12 {
        proof { reveal_strlit("c"); }
        "c"
    } else if d == 13 {
        proof { reveal_strlit("d"); }
        "d"
    } else if d == 14 {
        proof { reveal_strlit("e"); }
        "e"
    } else {
        proof { reveal_strlit("f"); }
        "f"
    }
}

/// Appends the notation of `n` in base `base` to `s`.
pub fn push_digits(s: &mut String, n: u64, base: u64)
    requires
        2 <= base <= 16,
    ensures
        final(s)@ == old(s)@ + digits(n as nat, base as nat),
    decreases n,
{
    if n < base {
        s.append(digit_str(n));
    } else {
        proof {
            lemma_div_shrinks(n as nat, base as nat);
        }
        push_digits(s, n / base, base);
        s.append(digit_str(n % base));
    }
}

/// Dividing by a base of at least two makes a positive number smaller.
pub proof fn lemma_div_shrinks(n: nat, base: nat)
    requires
        base >= 2,
        n >= base,
    ensures
        n / base < n,
{
    assert(n / base < n) by (nonlinear_arith)
        requires
            base >= 2,
            n >= base,
    ;
}

/// Appends the decimal notation of `n` to `s`.
pub fn push_decimal(s: &mut String, n: u64)
    ensures
        final(s)@ == old(s)@ + decimal(n as nat),
{
    push_digits(s, n, 10);
}

/// Appends the hexadecimal notation of `n`, zero-padded to `width`, to `s`.
pub fn push_hex_padded(s: &mut String, n: u64, width: u64)
    ensures
        final(s)@ == old(s)@ + hex_padded(n as nat, width as nat),
{
    let len = hex_len(n);
    let ghost start = s@;
    if len < width {
        let mut pad: u64 = width - len;
        while pad > 0
            invariant
                pad <= width - len,
                s@ == start + zeros((width - len - pad) as nat),
            decreases pad,
        {
            s.append(digit_str(0));
            pad = pad - 1;
            proof {
                assert(s@ =~= start + zeros((width - len - pad) as nat));
            }
        }
    }
    push_digits(s, n, 16);
    proof {
        if len < width {
            assert(s@ =~= start + (zeros((width - hex(n as nat).len()) as nat) + hex(n as nat)));
        }
    }
}

/// The decimal notation of `n` as a new string.
pub fn decimal_string(n: u64) -> (s: String)
    ensures
        s@ == decimal(n as nat),
{
    let mut s = String::new();
    push_decimal(&mut s, n);
    assert(s@ =~= decimal(n as nat));
    s
}

/// Number of characters of the hexadecimal notation of `n`.
fn hex_len(n: u64) -> (len: u64)
    ensures
        len == hex(n as nat).len(),
        1 <= len <= 16,
    decreases n,
{
    proof {
        lemma_hex_len_bound(n as nat, 16);
        assert(pow16(16) == 0x1_0000_0000_0000_0000) by {
            reveal_with_fuel(pow16, 17);
        }
    }
    if n < 16 {
        1
    } else {
        proof {
            lemma_div_shrinks(n as nat, 16);
        }
        let l = hex_len(n / 16);
        l + 1
    }
}

/// A number below `16^k` has at most `k` hexadecimal digits, and at least one.
pub proof fn lemma_hex_len_bound(n: nat, k: nat)
    requires
        k >= 1,
    ensures
        hex(n).len() >= 1,
        n < pow16(k) ==> hex(n).len() <= k,
    decreases n,
{
    if n >= 16 {
        lemma_div_shrinks(n, 16);
        if k >= 2 {
            assert(pow16(k) == 16 * pow16((k - 1) as nat));
            assert(n < pow16(k) ==> n / 16 < pow16((k - 1) as nat)) by (nonlinear_arith)
                requires
                    pow16(k) == 16 * pow16((k - 1) as nat),
            ;
            lemma_hex_len_bound(n / 16, (k - 1) as nat);
        } else {
            assert(pow16(1) == 16 * pow16(0));
            lemma_hex_len_bound(n / 16, 1);
        }
    }
}

/// 16 to the power `k`.
pub open spec fn pow16(k: nat) -> nat
    decreases k,
{
    if k == 0 { 1 } else { 16 * pow16((k - 1) as nat) }
}

} // verus!

verus! {

/// Whether a string slice holds exactly the characters of `lit`.
pub fn str_is(s: &str, lit: &str) -> (b: bool)
    ensures
        b == (s@ == lit@),
{
    s.to_owned() == lit.to_owned()
}

/// A new string holding the characters of `s`.
pub fn string_of(s: &str) -> (r: String)
    ensures
        r@ == s@,
{
    s.to_owned()
}

} // verus!

verus! {

/// The value of a hexadecimal digit character (inverse of `digit_char`).
pub open spec fn char_value(c: char) -> nat {
    if c == '1' { 1 }
    else if c == '2' { 2 }
    else if c == '3' { 3 }
    else if c == '4' { 4 }
    else if c == '5' { 5 }
    else if c == '6' { 6 }
    else if c == '7' { 7 }
    else if c == '8' { 8 }
    else if c == '9' { 9 }
    else if c == 'a' { 10 }
    else if c == 'b' { 11 }
    else if c == 'c' { 12 }
    else if c == 'd' { 13 }
    else if c == 'e' { 14 }
    else if c == 'f' { 15 }
    else { 0 }
}

/// The number that a hexadecimal text spells.
pub open spec fn hex_value(s: Seq<char>) -> nat
    decreases s.len(),
{
    if s.len() == 0 {
        0
    } else {
        hex_value(s.drop_last()) * 16 + char_value(s.last())
    }
}

/// Reading back the hexadecimal notation of a number gives the number.
pub proof fn lemma_hex_value_of_hex(n: nat)
    ensures
        hex_value(hex(n)) == n,
    decreases n,
{
    if n >= 16 {
        lemma_div_shrinks(n, 16);
        lemma_hex_value_of_hex(n / 16);
        let h = hex(n);
        assert(h.drop_last() =~= hex(n / 16));
        assert(h.last() == digit_char(n % 16));
        lemma_char_value_digit(n % 16);
        assert(hex_value(h) == hex_value(h.drop_last()) * 16 + char_value(h.last()));
        assert(hex_value(h) == (n / 16) * 16 + n % 16);
        assert(n == (n / 16) * 16 + n % 16) by (nonlinear_arith);
    } else {
        assert(hex(n).drop_last() =~= Seq::<char>::empty());
        assert(hex(n).last() == digit_char(n));
        lemma_char_value_digit(n);
        assert(hex_value(hex(n)) == hex_value(hex(n).drop_last()) * 16 + char_value(hex(n).last()));
    }
}

/// The value of the character of a digit is the digit.
pub proof fn lemma_char_value_digit(d: nat)
    requires
        d < 16,
    ensures
        char_value(digit_char(d)) == d,
{
}

/// Leading zeros do not change the number that a hexadecimal text spells.
pub proof fn lemma_hex_value_leading_zeros(k: nat, s: Seq<char>)
    ensures
        hex_value(zeros(k) + s) == hex_value(s),
    decreases s.len(),
{
    if s.len() == 0 {
        lemma_hex_value_zeros(k);
        assert(zeros(k) + s =~= zeros(k));
    } else {
        lemma_hex_value_leading_zeros(k, s.drop_last());
        assert((zeros(k) + s).drop_last() =~= zeros(k) + s.drop_last());
    }
}

proof fn lemma_hex_value_zeros(k: nat)
    ensures
        hex_value(zeros(k)) == 0,
    decreases k,
{
    if k > 0 {
        lemma_hex_value_zeros((k - 1) as nat);
        assert(zeros(k).drop_last() =~= zeros((k - 1) as nat));
    }
}

/// Zero-padded hexadecimal notation determines the number, whatever the
/// width.
pub proof fn lemma_hex_padded_injective(a: nat, b: nat, width: nat)
    requires
        hex_padded(a, width) == hex_padded(b, width),
    ensures
        a == b,
{
    lemma_hex_value_of_hex(a);
    lemma_hex_value_of_hex(b);
    if hex(a).len() < width {
        lemma_hex_value_leading_zeros((width - hex(a).len()) as nat, hex(a));
    }
    if hex(b).len() < width {
        lemma_hex_value_leading_zeros((width - hex(b).len()) as nat, hex(b));
    }
}

/// The notation of a number in a base determines the number.
pub proof fn lemma_digits_injective(a: nat, b: nat, base: nat)
    requires
        2 <= base <= 16,
        digits(a, base) == digits(b, base),
    ensures
        a == b,
    decreases a,
{
    lemma_digit_char_injective_bound(a, b, base);
    if a >= base && b >= base {
        lemma_div_shrinks(a, base);
        let da = digits(a, base);
        let db = digits(b, base);
        assert(da.last() == digit_char(a % base));
        assert(db.last() == digit_char(b % base));
        lemma_digit_char_injective(a % base, b % base);
        assert(digits(a / base, base) =~= da.drop_last());
        assert(digits(b / base, base) =~= db.drop_last());
        lemma_digits_injective(a / base, b / base, base);
        assert(a == base * (a / base) + a % base) by (nonlinear_arith)
            requires
                base >= 2,
        ;
        assert(b == base * (b / base) + b % base) by (nonlinear_arith)
            requires
                base >= 2,
        ;
    } else if a < base && b < base {
        assert(digits(a, base)[0] == digit_char(a));
        assert(digits(b, base)[0] == digit_char(b));
        lemma_digit_char_injective(a, b);
    }
}

/// Numbers below the base have one digit, others at least two; so equal
/// notations fall on the same side of the base.
proof fn lemma_digit_char_injective_bound(a: nat, b: nat, base: nat)
    requires
        2 <= base <= 16,
        digits(a, base) == digits(b, base),
    ensures
        (a < base) == (b < base),
{
    if a >= base {
        lemma_div_shrinks(a, base);
        lemma_digits_nonempty(a / base, base);
        assert(digits(a, base).len() == digits(a / base, base).len() + 1);
    } else {
        assert(digits(a, base).len() == 1);
    }
    if b >= base {
        lemma_div_shrinks(b, base);
        lemma_digits_nonempty(b / base, base);
        assert(digits(b, base).len() == digits(b / base, base).len() + 1);
    } else {
        assert(digits(b, base).len() == 1);
    }
}

/// Every number has at least one digit.
proof fn lemma_digits_nonempty(n: nat, base: nat)
    requires
        2 <= base <= 16,
    ensures
        digits(n, base).len() >= 1,
    decreases n,
{
    if n >= base {
        lemma_div_shrinks(n, base);
        lemma_digits_nonempty(n / base, base);
    }
}

/// Distinct digit values below 16 have distinct characters.
proof fn lemma_digit_char_injective(a: nat, b: nat)
    requires
        a < 16,
        b < 16,
        digit_char(a) == digit_char(b),
    ensures
        a == b,
{
}

/// No digit of a number's notation is a '-'.
pub proof fn lemma_digits_have_no_dash(n: nat, base: nat)
    requires
        2 <= base <= 16,
    ensures
        forall|i: int| 0 <= i < digits(n, base).len() ==> #[trigger] digits(n, base)[i] != '-',
    decreases n,
{
    if n >= base {
        lemma_div_shrinks(n, base);
        lemma_digits_have_no_dash(n / base, base);
        assert(forall|i: int| 0 <= i < digits(n / base, base).len() ==> digits(n, base)[i] == digits(n / base, base)[i]);
    }
}

/// No digit of a number is a '?'.
pub proof fn lemma_digits_have_no_question_mark(n: nat, base: nat)
    requires
        2 <= base <= 16,
    ensures
        forall|i: int| 0 <= i < digits(n, base).len() ==> #[trigger] digits(n, base)[i] != '?',
    decreases n,
{
    if n >= base {
        lemma_div_shrinks(n, base);
        lemma_digits_have_no_question_mark(n / base, base);
        assert(forall|i: int| 0 <= i < digits(n / base, base).len() ==> digits(n, base)[i] == digits(n / base, base)[i]);
    }
}

} // verus!
