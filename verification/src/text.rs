//! Building text out of numbers.
use vstd::prelude::*;

verus! {

/// Calls `String::push`, which appends `c` to the end of `s`.
#[verifier::external_body]
pub(crate) fn push_char(s: &mut String, c: char)
    ensures
        final(s)@ == old(s)@.push(c),
{
    s.push(c);
}

/// The character of the decimal digit `d`.
pub open spec fn digit_char(d: int) -> char {
    (d + 48) as char
}

/// The decimal digits of `n`, without leading zeros (`"0"` for zero).
pub open spec fn decimal(n: nat) -> Seq<char>
    decreases n,
{
    if n < 10 {
        seq![digit_char(n as int)]
    } else {
        decimal(n / 10).push(digit_char((n % 10) as int))
    }
}

/// `n` in decimal, with zeros in front up to `width` characters.
pub open spec fn padded(n: nat, width: nat) -> Seq<char> {
    if decimal(n).len() >= width {
        decimal(n)
    } else {
        Seq::new((width - decimal(n).len()) as nat, |i: int| '0') + decimal(n)
    }
}

/// The number of decimal digits of `n`.
pub fn decimal_len(n: u64) -> (len: usize)
    ensures
        len == decimal(n as nat).len(),
        1 <= len <= 20,
    decreases n,
{
    if n < 10 {
        1
    } else {
        let l = decimal_len(n / 10);
        assert(l < 20) by {
            lemma_decimal_len_bound((n / 10) as nat);
        }
        l + 1
    }
}

proof fn lemma_decimal_len_bound(n: nat)
    requires
        n <= u64::MAX / 10,
    ensures
        decimal(n).len() <= 19,
    decreases n,
{
    if n >= 10 {
        lemma_decimal_len_bound(n / 10);
        assert(decimal(n / 10).len() <= 18) by {
            lemma_decimal_len_small(n / 10);
        }
    }
}

proof fn lemma_decimal_len_small(n: nat)
    requires
        n <= u64::MAX / 100,
    ensures
        decimal(n).len() <= 18,
    decreases n,
{
    reveal_with_fuel(decimal, 19);
    if n >= 10 {
        lemma_decimal_len_small(n / 10);
    }
}

/// Appends the decimal digits of `n` to `s`.
pub fn push_decimal(s: &mut String, n: u64)
    ensures
        final(s)@ == old(s)@ + decimal(n as nat),
    decreases n,
{
    if n >= 10 {
        push_decimal(s, n / 10);
    }
    let d = (n % 10) as u8;
    push_char(s, (d + 48) as char);
    proof {
        if n >= 10 {
            assert(old(s)@ + decimal(n as nat) =~= old(s)@ + decimal((n / 10) as nat) + seq![
                digit_char((n % 10) as int),
            ]);
        } else {
            assert(decimal(n as nat) =~= seq![digit_char(n as int)]);
        }
    }
}

/// Appends `n` in decimal, with zeros in front up to `width` characters.
pub fn push_padded(s: &mut String, n: u64, width: usize)
    ensures
        final(s)@ == old(s)@ + padded(n as nat, width as nat),
{
    let len = decimal_len(n);
    let ghost start = s@;
    if len < width {
        let mut k: usize = 0;
        while k < width - len
            invariant
                len < width,
                k <= width - len,
                s@ == start + Seq::new(k as nat, |i: int| '0'),
            decreases width - len - k,
        {
            push_char(s, '0');
            k = k + 1;
            assert(s@ =~= start + Seq::new(k as nat, |i: int| '0'));
        }
    }
    push_decimal(s, n);
    assert(s@ =~= start + padded(n as nat, width as nat));
}

} // verus!
