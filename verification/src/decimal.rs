use vstd::prelude::*;

verus! {

/// The character for one decimal digit.
pub open spec fn decimal_digit(d: int) -> char {
    if d == 0 {
        '0'
    } else if d == 1 {
        '1'
    } else if d == 2 {
        '2'
    } else if d == 3 {
        '3'
    } else if d == 4 {
        '4'
    } else if d == 5 {
        '5'
    } else if d == 6 {
        '6'
    } else if d == 7 {
        '7'
    } else if d == 8 {
        '8'
    } else {
        '9'
    }
}

/// The decimal digits of a non-negative value, most significant first,
/// without a sign and without leading zeros (zero itself is "0").
pub open spec fn decimal_digits(n: nat) -> Seq<char>
    decreases n,
{
    if n < 10 {
        seq![decimal_digit(n as int)]
    } else {
        decimal_digits(n / 10).push(decimal_digit((n % 10) as int))
    }
}

/// The usual decimal rendering of a signed value: a minus sign for negative
/// values, then the digits of the magnitude.
pub open spec fn decimal_repr(n: int) -> Seq<char> {
    if n < 0 {
        seq!['-'] + decimal_digits((-n) as nat)
    } else {
        decimal_digits(n as nat)
    }
}

/// Relies on `String::push`: appends one character at the end of the string.
#[verifier::external_body]
fn push_char(s: &mut String, c: char)
    ensures
        final(s)@ == old(s)@.push(c),
{
    s.push(c);
}

fn digit_char(d: u32) -> (c: char)
    requires
        d < 10,
    ensures
        c == decimal_digit(d as int),
{
    if d == 0 {
        '0'
    } else if d == 1 {
        '1'
    } else if d == 2 {
        '2'
    } else if d == 3 {
        '3'
    } else if d == 4 {
        '4'
    } else if d == 5 {
        '5'
    } else if d == 6 {
        '6'
    } else if d == 7 {
        '7'
    } else if d == 8 {
        '8'
    } else {
        '9'
    }
}

proof fn lemma_reverse_push(s: Seq<char>, c: char)
    ensures
        s.push(c).reverse() == seq![c] + s.reverse(),
{
    assert(s.push(c).reverse() =~= seq![c] + s.reverse());
}

/// Renders `n` in decimal, exactly as [`decimal_repr`] describes it.
pub fn i32_to_decimal(n: i32) -> (s: String)
    ensures
        s@ == decimal_repr(n as int),
{
    let neg = n < 0;
    let mut mag: u32 = if n < 0 {
        (-(n as i64)) as u32
    } else {
        n as u32
    };
    let ghost m: nat = mag as nat;
    proof {
        if n < 0 {
            assert(m == -(n as int));
        } else {
            assert(m == n as int);
        }
    }

    // Low digits first, so collect them in reverse and emit them backwards.
    let mut rev: Vec<char> = Vec::new();
    let d0 = digit_char(mag % 10);
    rev.push(d0);
    proof {
        assert(rev@ =~= seq![d0]);
        assert(rev@.reverse() =~= seq![d0]);
        if mag >= 10 {
            lemma_reverse_push(Seq::<char>::empty(), d0);
            assert(decimal_digits(m) == decimal_digits(m / 10).push(decimal_digit((m % 10) as int)));
            assert(decimal_digits(m / 10) + rev@.reverse() =~= decimal_digits(m / 10).push(d0));
        }
    }
    mag = mag / 10;
    while mag > 0
        invariant
            mag > 0 ==> decimal_digits(m) == decimal_digits(mag as nat) + rev@.reverse(),
            mag == 0 ==> decimal_digits(m) == rev@.reverse(),
        decreases mag,
    {
        let d = digit_char(mag % 10);
        let ghost old_rev = rev@;
        let ghost v: nat = mag as nat;
        rev.push(d);
        proof {
            lemma_reverse_push(old_rev, d);
            if v >= 10 {
                assert(decimal_digits(v) == decimal_digits(v / 10).push(decimal_digit((v % 10) as int)));
                assert(decimal_digits(v / 10).push(d) =~= decimal_digits(v / 10) + seq![d]);
                assert(decimal_digits(v / 10) + (seq![d] + old_rev.reverse())
                    =~= (decimal_digits(v / 10) + seq![d]) + old_rev.reverse());
            } else {
                assert(decimal_digits(v) =~= seq![d]);
            }
        }
        mag = mag / 10;
    }

    let mut s = String::new();
    if neg {
        push_char(&mut s, '-');
    }
    let ghost prefix: Seq<char> = s@;
    let ghost msd = rev@.reverse();
    let mut i: usize = rev.len();
    proof {
        assert(prefix + msd.take(rev@.len() - i) =~= prefix);
    }
    while i > 0
        invariant
            i <= rev@.len(),
            msd == rev@.reverse(),
            s@ == prefix + msd.take(rev@.len() - i),
        decreases i,
    {
        i = i - 1;
        let ghost s_before = s@;
        push_char(&mut s, rev[i]);
        proof {
            assert(msd.take(rev@.len() - i) =~= msd.take(rev@.len() - (i + 1)).push(rev@[i as int]));
            assert(s_before.push(rev@[i as int]) =~= prefix + msd.take(rev@.len() - i));
        }
    }
    proof {
        assert(msd.take(rev@.len() as int) =~= msd);
        if neg {
            assert(s@ == seq!['-'] + decimal_digits(m));
            assert(decimal_repr(n as int) == seq!['-'] + decimal_digits((-(n as int)) as nat));
        } else {
            assert(prefix + msd =~= msd);
        }
    }
    s
}

} // verus!
