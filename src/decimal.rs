//! Fixed-point decimal rendering of unsigned integers.

use vstd::prelude::*;

verus! {

/// The character of a decimal digit `d` (0 through 9).
pub open spec fn digit_char(d: int) -> char {
    if d == 0 {
        '0'
    } else if d == 1 {
        '1'
    } else if d == 2 {
        '2'
    } else if d == 3 {
        '3'
    } else if d == 4 {
        '4'
    } else if d == 5 {
        '5'
    } else if d == 6 {
        '6'
    } else if d == 7 {
        '7'
    } else if d == 8 {
        '8'
    } else {
        '9'
    }
}

/// The base-10 digits of `n`, most significant first, without leading zeros
/// (zero is the single digit `0`).
pub open spec fn digits(n: nat) -> Seq<char>
    decreases n,
{
    if n < 10 {
        seq![digit_char(n as int)]
    } else {
        digits(n / 10).push(digit_char((n % 10) as int))
    }
}

/// `k` zero characters.
pub open spec fn zeros(k: nat) -> Seq<char> {
    Seq::new(k, |i: int| '0')
}

/// The text of `value` with its last `decimals` digits after a point.
///
/// When `value` has no more digits than `decimals`, the integer part is `0`
/// and the fraction is padded on the left with zeros to `decimals` digits.
/// Otherwise the point goes between digit `L - decimals` and the rest, where
/// `L` is the digit count. With `decimals == 0` the point ends the text
/// (`12345` renders as `12345.`): the point is always there, so the text
/// always has one integer part and one fractional part.
pub open spec fn render(value: nat, decimals: nat) -> Seq<char> {
    let d = digits(value);
    if d.len() <= decimals {
        seq!['0', '.'] + zeros((decimals - d.len()) as nat) + d
    } else {
        let p = d.len() - decimals;
        d.subrange(0, p) + seq!['.'] + d.subrange(p, d.len() as int)
    }
}

/// Zero renders as `0.` followed by `n` zeros, whatever the scale `n > 0`.
pub proof fn lemma_zero_value(n: nat)
    requires
        n > 0,
    ensures
        render(0, n) == seq!['0', '.'] + zeros(n),
{
    let d = digits(0);
    assert(d == seq!['0']);
    assert(zeros((n - 1) as nat) + d =~= zeros(n));
    assert(seq!['0', '.'] + zeros((n - 1) as nat) + d =~= seq!['0', '.'] + zeros(n));
}

/// A non-negative integer with a scale: `value / 10^decimals`.
pub struct Decimal {
    pub value: u128,
    pub decimals: u32,
}

/// The digit values of `n`, most significant first.
fn digit_values(n: u128) -> (r: Vec<u8>)
    ensures
        r@.len() == digits(n as nat).len(),
        forall|i: int|
            0 <= i < r@.len() ==> #[trigger] r@[i] < 10 && digit_char(r@[i] as int)
                == digits(n as nat)[i],
    decreases n,
{
    let last = (n % 10) as u8;
    if n < 10 {
        let mut r: Vec<u8> = Vec::new();
        r.push(last);
        r
    } else {
        let mut r = digit_values(n / 10);
        r.push(last);
        proof {
            assert(digits(n as nat) == digits((n / 10) as nat).push(digit_char((n % 10) as int)));
        }
        r
    }
}

/// The one-character text of digit `d`.
fn digit_str(d: u8) -> (r: &'static str)
    requires
        d < 10,
    ensures
        r@ == seq![digit_char(d as int)],
{
    if d == 0 {
        proof { reveal_strlit("0"); }
        "0"
    } else if d == 1 {
        proof { reveal_strlit("1"); }
        "1"
    } else if d == 2 {
        proof { reveal_strlit("2"); }
        "2"
    } else if d == 3 {
        proof { reveal_strlit("3"); }
        "3"
    } else if d == 4 {
        proof { reveal_strlit("4"); }
        "4"
    } else if d == 5 {
        proof { reveal_strlit("5"); }
        "5"
    } else if d == 6 {
        proof { reveal_strlit("6"); }
        "6"
    } else if d == 7 {
        proof { reveal_strlit("7"); }
        "7"
    } else if d == 8 {
        proof { reveal_strlit("8"); }
        "8"
    } else {
        proof { reveal_strlit("9"); }
        "9"
    }
}

/// Appends the digits `dv[from..to]` to `s`.
fn append_digits(s: &mut String, dv: &Vec<u8>, from: usize, to: usize, d: Ghost<Seq<char>>)
    requires
        from <= to <= dv@.len() == d@.len(),
        forall|i: int| 0 <= i < dv@.len() ==> #[trigger] dv@[i] < 10 && digit_char(dv@[i] as int) == d@[i],
    ensures
        final(s)@ == old(s)@ + d@.subrange(from as int, to as int),
{
    let mut i = from;
    while i < to
        invariant
            from <= i <= to <= dv@.len() == d@.len(),
            forall|j: int| 0 <= j < dv@.len() ==> #[trigger] dv@[j] < 10 && digit_char(dv@[j] as int) == d@[j],
            s@ == old(s)@ + d@.subrange(from as int, i as int),
        decreases to - i,
    {
        let t = digit_str(dv[i]);
        s.append(t);
        proof {
            assert(d@.subrange(from as int, i + 1) =~= d@.subrange(from as int, i as int).push(d@[i as int]));
        }
        i = i + 1;
    }
}

impl Decimal {
    pub fn new(value: u128, decimals: u32) -> (r: Decimal)
        ensures
            r.value == value,
            r.decimals == decimals,
    {
        Decimal { value, decimals }
    }

    /// The decimal text of this number, as `render` states it.
    pub fn to_string(&self) -> (r: String)
        ensures
            r@ == render(self.value as nat, self.decimals as nat),
    {
        let dv = digit_values(self.value);
        let ghost d = digits(self.value as nat);
        let len = dv.len();
        let decimals = self.decimals as usize;
        let mut s = String::new();
        if len <= decimals {
            proof { reveal_strlit("0."); reveal_strlit("0"); }
            s.append("0.");
            let pad = decimals - len;
            let mut k: usize = 0;
            while k < pad
                invariant
                    k <= pad,
                    s@ == seq!['0', '.'] + zeros(k as nat),
                    "0"@ == seq!['0'],
                decreases pad - k,
            {
                s.append("0");
                proof {
                    assert(zeros((k + 1) as nat) =~= zeros(k as nat).push('0'));
                    assert(seq!['0', '.'] + zeros((k + 1) as nat) =~= seq!['0', '.'] + zeros(k as nat) + seq!['0']);
                }
                k = k + 1;
            }
            append_digits(&mut s, &dv, 0, len, Ghost(d));
            proof {
                assert(d.subrange(0, len as int) =~= d);
            }
        } else {
            let p = len - decimals;
            append_digits(&mut s, &dv, 0, p, Ghost(d));
            proof { reveal_strlit("."); }
            s.append(".");
            append_digits(&mut s, &dv, p, len, Ghost(d));
            proof {
                assert(s@ =~= d.subrange(0, p as int) + seq!['.'] + d.subrange(p as int, len as int));
            }
        }
        s
    }
}

} // verus!
