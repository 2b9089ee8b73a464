//! Decimal numerals: rendering an unsigned number as digit characters and
//! reading such a numeral back, with the proof that reading inverts
//! rendering.

use vstd::prelude::*;

verus! {

/// Whether `c` is a decimal digit.
pub open spec fn is_digit(c: char) -> bool {
    48 <= c as u32 <= 57
}

/// Value of a decimal digit character.
pub open spec fn digit_val(c: char) -> nat {
    (c as u32 - 48) as nat
}

/// The digit character for a value below ten.
pub open spec fn digit_char(d: nat) -> char {
    if d == 0 {
        '0'
    } else if d == 1 {
        '1'
    } else if d == 2 {
        '2'
    } else if d == 3 {
        '3'
    } else if d == 4 {
        '4'
    } else if d == 5 {
        '5'
    } else if d == 6 {
        '6'
    } else if d == 7 {
        '7'
    } else if d == 8 {
        '8'
    } else {
        '9'
    }
}

pub proof fn lemma_digit_char_val(d: nat)
    requires
        d < 10,
    ensures
        is_digit(digit_char(d)),
        digit_val(digit_char(d)) == d,
{
}

/// The decimal numeral of `n`, most significant digit first.
pub open spec fn dec_of(n: nat) -> Seq<char>
    decreases n,
{
    if n < 10 {
        seq![digit_char(n)]
    } else {
        dec_of(n / 10).push(digit_char(n % 10))
    }
}

/// Every character of a decimal numeral is a digit.
pub proof fn lemma_dec_of_digits(n: nat)
    ensures
        dec_of(n).len() >= 1,
        forall|k: int| 0 <= k < dec_of(n).len() ==> is_digit(#[trigger] dec_of(n)[k]),
    decreases n,
{
    if n < 10 {
        lemma_digit_char_val(n);
    } else {
        lemma_dec_of_digits(n / 10);
        lemma_digit_char_val(n % 10);
    }
}

/// Renders `n` as its decimal digit characters.
pub fn u32_digits(n: u32) -> (v: Vec<char>)
    ensures
        v@ == dec_of(n as nat),
    decreases n,
{
    if n < 10 {
        let mut v: Vec<char> = Vec::new();
        v.push(digit_char_exec(n));
        proof {
            assert(v@ =~= dec_of(n as nat));
        }
        v
    } else {
        let mut v = u32_digits(n / 10);
        v.push(digit_char_exec(n % 10));
        proof {
            assert(v@ =~= dec_of(n as nat));
        }
        v
    }
}

/// The digit character for a value below ten.
pub fn digit_char_exec(d: u32) -> (c: char)
    requires
        d < 10,
    ensures
        c == digit_char(d as nat),
{
    if d == 0 {
        '0'
    } else if d == 1 {
        '1'
    } else if d == 2 {
        '2'
    } else if d == 3 {
        '3'
    } else if d == 4 {
        '4'
    } else if d == 5 {
        '5'
    } else if d == 6 {
        '6'
    } else if d == 7 {
        '7'
    } else if d == 8 {
        '8'
    } else {
        '9'
    }
}

/// Reads digits from position `i` on, folding them onto `acc`, and returns
/// the folded value together with the position of the first non-digit.
pub open spec fn sp_digits(s: Seq<char>, i: int, acc: nat) -> (nat, int)
    decreases s.len() - i,
{
    if 0 <= i < s.len() && is_digit(s[i]) {
        sp_digits(s, i + 1, acc * 10 + digit_val(s[i]))
    } else {
        (acc, i)
    }
}

/// The folded value never falls below the accumulator it started from.
pub proof fn lemma_sp_digits_ge_acc(s: Seq<char>, i: int, acc: nat)
    ensures
        sp_digits(s, i, acc).0 >= acc,
    decreases s.len() - i,
{
    if 0 <= i < s.len() && is_digit(s[i]) {
        assert(acc * 10 + digit_val(s[i]) >= acc) by (nonlinear_arith);
        lemma_sp_digits_ge_acc(s, i + 1, acc * 10 + digit_val(s[i]));
    }
}

/// Reads a `u32` numeral at position `i`: at least one digit, and the
/// folded value must fit.
pub open spec fn sp_u32(s: Seq<char>, i: int) -> Option<(u32, int)> {
    if 0 <= i < s.len() && is_digit(s[i]) {
        let (v, j) = sp_digits(s, i, 0);
        if v <= u32::MAX {
            Some((v as u32, j))
        } else {
            None
        }
    } else {
        None
    }
}

/// Reads a `u32` numeral at position `i`, as [`sp_u32`] describes it.
pub fn parse_u32(s: &Vec<char>, i: usize) -> (r: Option<(u32, usize)>)
    requires
        i <= s@.len(),
    ensures
        match r {
            Some((v, j)) => sp_u32(s@, i as int) == Some((v, j as int)) && i < j <= s@.len(),
            None => sp_u32(s@, i as int) is None,
        },
{
    if i >= s.len() {
        return None;
    }
    let c0 = s[i];
    let u0 = c0 as u32;
    if u0 < 48 || u0 > 57 {
        return None;
    }
    let mut acc: u64 = 0;
    let mut j: usize = i;
    loop
        invariant
            i <= j <= s@.len(),
            i < s@.len(),
            acc <= u32::MAX,
            sp_digits(s@, i as int, 0) == sp_digits(s@, j as int, acc as nat),
            is_digit(s@[i as int]),
        ensures
            i < j <= s@.len(),
            acc <= u32::MAX,
            sp_digits(s@, i as int, 0) == sp_digits(s@, j as int, acc as nat),
            j == s@.len() || !is_digit(s@[j as int]),
        decreases s@.len() - j,
    {
        if j >= s.len() {
            break;
        }
        let u = s[j] as u32;
        if u < 48 || u > 57 {
            break;
        }
        let d = (u - 48) as u64;
        assert(digit_val(s@[j as int]) == d);
        acc = acc * 10 + d;
        if acc > u32::MAX as u64 {
            proof {
                lemma_sp_digits_ge_acc(s@, j + 1, acc as nat);
            }
            return None;
        }
        j = j + 1;
    }
    proof {
        assert(sp_digits(s@, j as int, acc as nat) == (acc as nat, j as int));
    }
    Some((acc as u32, j))
}

/// Ten to the `k`.
pub open spec fn pow10(k: nat) -> nat
    decreases k,
{
    if k == 0 {
        1
    } else {
        10 * pow10((k - 1) as nat)
    }
}

pub proof fn lemma_pow10_succ(k: nat)
    ensures
        pow10(k + 1) == pow10(k) * 10,
    decreases k,
{
    if k == 0 {
    } else {
        lemma_pow10_succ((k - 1) as nat);
    }
}

/// Does `s` hold the characters of `p` starting at `i`?
pub open spec fn at(s: Seq<char>, i: int, p: Seq<char>) -> bool {
    &&& 0 <= i
    &&& i + p.len() <= s.len()
    &&& forall|k: int| 0 <= k < p.len() ==> s[i + k] == p[k]
}

/// Containment distributes over concatenation.
pub proof fn lemma_at_split(s: Seq<char>, i: int, p: Seq<char>, q: Seq<char>)
    requires
        at(s, i, p + q),
    ensures
        at(s, i, p),
        at(s, i + p.len(), q),
{
    assert forall|k: int| 0 <= k < p.len() implies s[i + k] == p[k] by {
        assert((p + q)[k] == p[k]);
        assert(s[i + k] == (p + q)[k]);
    }
    assert forall|k: int| 0 <= k < q.len() implies s[i + p.len() + k] == q[k] by {
        assert((p + q)[p.len() + k] == q[k]);
        assert(s[i + (p.len() + k)] == (p + q)[p.len() + k]);
    }
}

/// Reading digits across the numeral of `n` folds `n` onto the accumulator.
proof fn lemma_digits_chain(s: Seq<char>, i: int, acc: nat, n: nat)
    requires
        at(s, i, dec_of(n)),
    ensures
        sp_digits(s, i, acc) == sp_digits(
            s,
            i + dec_of(n).len(),
            acc * pow10(dec_of(n).len() as nat) + n,
        ),
    decreases n,
{
    lemma_dec_of_digits(n);
    if n < 10 {
        assert(s[i] == dec_of(n)[0]);
        lemma_digit_char_val(n);
        assert(sp_digits(s, i, acc) == sp_digits(s, i + 1, acc * 10 + n));
        assert(pow10(0) == 1);
        assert(pow10(1) == 10);
    } else {
        let hi = dec_of(n / 10);
        let lo = seq![digit_char(n % 10)];
        assert(dec_of(n) == hi + lo) by {
            assert(dec_of(n) =~= hi + lo);
        }
        lemma_at_split(s, i, hi, lo);
        lemma_digits_chain(s, i, acc, n / 10);
        let l = hi.len() as nat;
        let mid = i + hi.len();
        let acc2 = acc * pow10(l) + n / 10;
        assert(s[mid] == lo[0]);
        lemma_digit_char_val(n % 10);
        assert(is_digit(s[mid]));
        assert(sp_digits(s, mid, acc2) == sp_digits(s, mid + 1, acc2 * 10 + n % 10));
        let p = pow10(l);
        assert((acc * p + n / 10) * 10 + n % 10 == acc * (p * 10) + (n / 10 * 10 + n % 10))
            by (nonlinear_arith);
        assert(n / 10 * 10 + n % 10 == n);
        lemma_pow10_succ(l);
        assert(pow10(l + 1) == pow10(l) * 10);
        assert(dec_of(n).len() == l + 1);
    }
}

/// Reading a numeral back: where `s` holds the numeral of `n` at `i` and a
/// non-digit (or the end) follows it, the numeral reads back as exactly `n`.
pub proof fn lemma_u32_inversion(s: Seq<char>, i: int, n: u32)
    requires
        at(s, i, dec_of(n as nat)),
        i + dec_of(n as nat).len() == s.len() || !is_digit(s[i + dec_of(n as nat).len()]),
    ensures
        sp_u32(s, i) == Some((n, i + dec_of(n as nat).len())),
{
    lemma_dec_of_digits(n as nat);
    assert(s[i] == dec_of(n as nat)[0]);
    lemma_digits_chain(s, i, 0, n as nat);
    let j = i + dec_of(n as nat).len();
    assert(sp_digits(s, j, n as nat) == (n as nat, j));
    assert(0 * pow10(dec_of(n as nat).len() as nat) + n as nat == n as nat);
}

} // verus!
