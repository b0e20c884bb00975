//! Text helpers shared by the manifest builders.

use vstd::prelude::*;

verus! {

/// The decimal digit character for `d` in `0..10`.
pub open spec fn digit_char(d: nat) -> char {
    if d == 0 { '0' }
    else if d == 1 { '1' }
    else if d == 2 { '2' }
    else if d == 3 { '3' }
    else if d == 4 { '4' }
    else if d == 5 { '5' }
    else if d == 6 { '6' }
    else if d == 7 { '7' }
    else if d == 8 { '8' }
    else { '9' }
}

/// Decimal digits of a natural number, most significant first, no leading zeros.
pub open spec fn decimal(n: nat) -> Seq<char>
    decreases n,
{
    if n < 10 {
        seq![digit_char(n)]
    } else {
        decimal(n / 10).push(digit_char(n % 10))
    }
}

/// Decimal text of an integer, with a leading `-` when it is negative.
pub open spec fn int_text(n: int) -> Seq<char> {
    if n < 0 {
        seq!['-'] + decimal((-n) as nat)
    } else {
        decimal(n as nat)
    }
}

/// The one-character text of the digit `d`.
fn digit_text(d: u32) -> (r: &'static str)
    requires
        d < 10,
    ensures
        r@ == seq![digit_char(d as nat)],
{
    let r = if d == 0 {
        "0"
    } else if d == 1 {
        "1"
    } else if d == 2 {
        "2"
    } else if d == 3 {
        "3"
    } else if d == 4 {
        "4"
    } else if d == 5 {
        "5"
    } else if d == 6 {
        "6"
    } else if d == 7 {
        "7"
    } else if d == 8 {
        "8"
    } else {
        "9"
    };
    proof {
        reveal_strlit("0");
        reveal_strlit("1");
        reveal_strlit("2");
        reveal_strlit("3");
        reveal_strlit("4");
        reveal_strlit("5");
        reveal_strlit("6");
        reveal_strlit("7");
        reveal_strlit("8");
        reveal_strlit("9");
        assert(r@ =~= seq![digit_char(d as nat)]);
    }
    r
}

/// Decimal text of `n`, with a leading `-` when it is negative.
pub fn i32_text(n: i32) -> (r: String)
    ensures
        r@ == int_text(n as int),
{
    let negative = n < 0;
    let magnitude: i64 = if negative { -(n as i64) } else { n as i64 };
    let mut m: u32 = magnitude as u32;
    let ghost whole = m as nat;
    // Digits below `m`, least significant first.
    let mut low: Vec<u32> = Vec::new();
    let ghost tail: Seq<char> = seq![];
    while m >= 10
        invariant
            decimal(whole) == decimal(m as nat) + tail,
            tail.len() == low@.len(),
            forall|i: int| 0 <= i < low@.len() ==> low@[i] < 10,
            forall|i: int|
                0 <= i < tail.len() ==> #[trigger] tail[i] == digit_char(low@[low@.len() - 1 - i] as nat),
        decreases m,
    {
        let d = m % 10;
        proof {
            assert(decimal(m as nat) == decimal((m / 10) as nat).push(digit_char(d as nat)));
            assert(decimal((m / 10) as nat) + (seq![digit_char(d as nat)] + tail)
                =~= decimal((m / 10) as nat).push(digit_char(d as nat)) + tail);
        }
        low.push(d);
        proof {
            tail = seq![digit_char(d as nat)] + tail;
        }
        m = m / 10;
    }
    proof {
        assert(decimal(m as nat) == seq![digit_char(m as nat)]);
    }
    let mut s = if negative { String::from_str("-") } else { String::new() };
    let ghost sign: Seq<char> = s@;
    proof {
        reveal_strlit("-");
    }
    s.append(digit_text(m));
    let mut i: usize = low.len();
    proof {
        assert(tail.subrange(0, 0) =~= Seq::<char>::empty());
        assert(s@ =~= sign + seq![digit_char(m as nat)] + tail.subrange(0, (low@.len() - i) as int));
    }
    while i > 0
        invariant
            i <= low@.len(),
            tail.len() == low@.len(),
            forall|k: int| 0 <= k < low@.len() ==> low@[k] < 10,
            forall|k: int|
                0 <= k < tail.len() ==> #[trigger] tail[k] == digit_char(low@[low@.len() - 1 - k] as nat),
            s@ == sign + seq![digit_char(m as nat)] + tail.subrange(0, (low@.len() - i) as int),
        decreases i,
    {
        i = i - 1;
        s.append(digit_text(low[i]));
        proof {
            let k = (low@.len() - 1 - i) as int;
            assert(tail[k] == digit_char(low@[i as int] as nat));
            assert(tail.subrange(0, k + 1) =~= tail.subrange(0, k).push(tail[k]));
        }
    }
    proof {
        assert(tail.subrange(0, tail.len() as int) =~= tail);
        if negative {
            assert(sign =~= seq!['-']);
            assert(s@ =~= seq!['-'] + decimal(whole));
        } else {
            assert(sign =~= Seq::<char>::empty());
            assert(s@ =~= decimal(whole));
        }
    }
    s
}

/// Concatenation of two pieces of text.
pub fn concat2(a: &str, b: &str) -> (r: String)
    ensures
        r@ == a@ + b@,
{
    let mut s = String::from_str(a);
    s.append(b);
    s
}

} // verus!
