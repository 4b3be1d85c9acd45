//! Text building blocks for the code generator: decimal rendering of
//! indices and escaping of backslashes in resource paths.

use vstd::prelude::*;

verus! {

/// The decimal digit character for `n < 10`.
pub open spec fn digit_char(n: nat) -> char {
    if n == 0 {
        '0'
    } else if n == 1 {
        '1'
    } else if n == 2 {
        '2'
    } else if n == 3 {
        '3'
    } else if n == 4 {
        '4'
    } else if n == 5 {
        '5'
    } else if n == 6 {
        '6'
    } else if n == 7 {
        '7'
    } else if n == 8 {
        '8'
    } else {
        '9'
    }
}

/// Decimal text of a natural number: no sign, no leading zeros.
pub open spec fn dec_str(n: nat) -> Seq<char>
    decreases n,
{
    if n < 10 {
        seq![digit_char(n)]
    } else {
        dec_str(n / 10).push(digit_char(n % 10))
    }
}

/// `s` with every backslash doubled.
pub open spec fn esc_str(s: Seq<char>) -> Seq<char>
    decreases s.len(),
{
    if s.len() == 0 {
        Seq::empty()
    } else {
        esc_str(s.drop_last()) + (if s.last() == '\\' {
            seq!['\\', '\\']
        } else {
            seq![s.last()]
        })
    }
}

/// Relies on `String::push`: appends the given character to the end of the
/// string.
#[verifier::external_body]
pub fn push_char(s: &mut String, c: char)
    ensures
        final(s)@ == old(s)@.push(c),
{
    s.push(c);
}

fn digit_of(n: usize) -> (c: char)
    requires
        n < 10,
    ensures
        c == digit_char(n as nat),
{
    match n {
        0 => '0',
        1 => '1',
        2 => '2',
        3 => '3',
        4 => '4',
        5 => '5',
        6 => '6',
        7 => '7',
        8 => '8',
        _ => '9',
    }
}

/// Decimal rendering of an index.
pub fn usize_to_string(n: usize) -> (r: String)
    ensures
        r@ == dec_str(n as nat),
{
    let mut digits: Vec<char> = Vec::new();
    let mut m: usize = n;
    digits.push(digit_of(m % 10));
    m = m / 10;
    while m > 0
        invariant
            dec_str(n as nat) == (if m > 0 {
                dec_str(m as nat) + digits@.reverse()
            } else {
                digits@.reverse()
            }),
            digits@.len() >= 1,
        decreases m,
    {
        let ghost pre = digits@;
        let ghost m0 = m as nat;
        digits.push(digit_of(m % 10));
        proof {
            assert(digits@.reverse() =~= seq![digit_char(m0 % 10)] + pre.reverse());
        }
        m = m / 10;
        proof {
            if m > 0 {
                assert(m0 >= 10);
                assert(dec_str(m0) == dec_str(m0 / 10).push(digit_char(m0 % 10)));
                assert(dec_str(m0) + pre.reverse() =~= dec_str(m as nat)
                    + digits@.reverse());
            } else {
                assert(m0 < 10);
                assert(dec_str(m0) =~= seq![digit_char(m0)]);
                assert(dec_str(m0) + pre.reverse() =~= digits@.reverse());
            }
        }
    }
    let mut r = String::new();
    let mut i: usize = digits.len();
    while i > 0
        invariant
            i <= digits@.len(),
            r@ =~= digits@.subrange(i as int, digits@.len() as int).reverse(),
        decreases i,
    {
        i = i - 1;
        push_char(&mut r, digits[i]);
        proof {
            assert(r@ =~= digits@.subrange(i as int, digits@.len() as int).reverse());
        }
    }
    proof {
        assert(r@ =~= digits@.reverse());
    }
    r
}

/// Doubles every backslash, as needed inside a quoted resource path.
pub fn escape_backslashes(s: &str) -> (r: String)
    ensures
        r@ == esc_str(s@),
{
    let n = s.unicode_len();
    let mut r = String::new();
    let mut i: usize = 0;
    while i < n
        invariant
            i <= n,
            n == s@.len(),
            r@ == esc_str(s@.subrange(0, i as int)),
        decreases n - i,
    {
        let c = s.get_char(i);
        if c == '\\' {
            push_char(&mut r, '\\');
            push_char(&mut r, '\\');
        } else {
            push_char(&mut r, c);
        }
        i = i + 1;
        proof {
            let t = s@.subrange(0, i as int);
            assert(t.drop_last() =~= s@.subrange(0, i - 1));
            assert(t.last() == s@[i - 1]);
            assert(r@ =~= esc_str(t));
        }
    }
    proof {
        assert(s@.subrange(0, n as int) =~= s@);
    }
    r
}

} // verus!
