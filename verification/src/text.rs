use vstd::prelude::*;

verus! {

/// The character of a decimal digit `d` (`d < 10`).
pub open spec fn digit_char(d: nat) -> char {
    ((48 + d) as u32) as char
}

/// The decimal representation of `n`, most significant digit first,
/// without leading zeros ("0" for zero).
pub open spec fn decimal(n: nat) -> Seq<char>
    decreases n,
{
    if n < 10 {
        seq![digit_char(n)]
    } else {
        decimal(n / 10).push(digit_char(n % 10))
    }
}

/// The octal representation of `n`, most significant digit first, without
/// leading zeros ("0" for zero), as `{:o}` writes it.
pub open spec fn octal(n: nat) -> Seq<char>
    decreases n,
{
    if n < 8 {
        seq![digit_char(n)]
    } else {
        octal(n / 8).push(digit_char(n % 8))
    }
}

/// The decimal representation of a signed integer: a '-' before the digits
/// of its magnitude when it is negative.
pub open spec fn signed_decimal(i: int) -> Seq<char> {
    if i < 0 {
        seq!['-'] + decimal((-i) as nat)
    } else {
        decimal(i as nat)
    }
}

/// How `{:?}` shows an `Option<i32>`: `Some(5)` or `None`.
pub open spec fn option_debug(o: Option<i32>) -> Seq<char> {
    match o {
        Some(v) => "Some("@ + signed_decimal(v as int) + ")"@,
        None => "None"@,
    }
}

fn digit_text(d: u64) -> (s: &'static str)
    requires
        d < 10,
    ensures
        s@ == seq![digit_char(d as nat)],
{
    if d == 0 {
        proof { reveal_strlit("0"); }
        "0"
    } else if d == 1 {
        proof { reveal_strlit("1"); }
        "1"
    } else if d == 2 {
        proof { reveal_strlit("2"); }
        "2"
    } else if d == 3 {
        proof { reveal_strlit("3"); }
        "3"
    } else if d == 4 {
        proof { reveal_strlit("4"); }
        "4"
    } else if d == 5 {
        proof { reveal_strlit("5"); }
        "5"
    } else if d == 6 {
        proof { reveal_strlit("6"); }
        "6"
    } else if d == 7 {
        proof { reveal_strlit("7"); }
        "7"
    } else if d == 8 {
        proof { reveal_strlit("8"); }
        "8"
    } else {
        proof { reveal_strlit("9"); }
        "9"
    }
}

/// Writes `n` in decimal, as `n.to_string()` does.
pub fn u64_text(n: u64) -> (s: String)
    ensures
        s@ == decimal(n as nat),
    decreases n,
{
    if n < 10 {
        digit_text(n).to_owned()
    } else {
        let mut s = u64_text(n / 10);
        s.append(digit_text(n % 10));
        s
    }
}

/// Writes `n` in octal, as `format!("{:o}", n)` does.
pub fn u32_octal_text(n: u32) -> (s: String)
    ensures
        s@ == octal(n as nat),
    decreases n,
{
    if n < 8 {
        digit_text(n as u64).to_owned()
    } else {
        let mut s = u32_octal_text(n / 8);
        s.append(digit_text((n % 8) as u64));
        s
    }
}

/// Writes `i` in decimal, as `i.to_string()` does.
pub fn i64_text(i: i64) -> (s: String)
    ensures
        s@ == signed_decimal(i as int),
{
    if i < 0 {
        let magnitude: u64 = ((-(i + 1)) as u64) + 1;
        let mut s = "-".to_owned();
        proof { reveal_strlit("-"); }
        let digits = u64_text(magnitude);
        s.append(digits.as_str());
        s
    } else {
        u64_text(i as u64)
    }
}

/// Writes `i` in decimal, as `i.to_string()` does.
pub fn i32_text(i: i32) -> (s: String)
    ensures
        s@ == signed_decimal(i as int),
{
    i64_text(i as i64)
}

/// Writes an optional errno as `{:?}` does: `Some(2)` or `None`.
pub fn option_i32_debug(o: Option<i32>) -> (s: String)
    ensures
        s@ == option_debug(o),
{
    match o {
        Some(v) => {
            let mut s = "Some(".to_owned();
            let digits = i32_text(v);
            s.append(digits.as_str());
            s.append(")");
            s
        },
        None => "None".to_owned(),
    }
}

/// A digit's character is that digit's code point, counted from '0'.
pub proof fn lemma_digit_char(d: nat)
    requires
        d < 10,
    ensures
        digit_char(d) as u32 == 48 + d,
{
}

/// A decimal text is at least one character long and made of digits only:
/// every character lies between '0' and '9'.
pub proof fn lemma_decimal_digits(n: nat)
    ensures
        decimal(n).len() >= 1,
        n >= 10 ==> decimal(n).len() >= 2,
        forall|k: int| 0 <= k < decimal(n).len() ==> 48 <= #[trigger] decimal(n)[k] as u32 <= 57,
    decreases n,
{
    if n < 10 {
        lemma_digit_char(n);
    } else {
        lemma_decimal_digits(n / 10);
        lemma_digit_char(n % 10);
        assert forall|k: int| 0 <= k < decimal(n).len() implies 48 <= #[trigger] decimal(n)[k] as u32
            <= 57 by {
            if k < decimal(n / 10).len() {
                assert(decimal(n)[k] == decimal(n / 10)[k]);
            }
        }
    }
}

/// Different numbers have different decimal texts.
pub proof fn lemma_decimal_injective(n: nat, m: nat)
    requires
        decimal(n) == decimal(m),
    ensures
        n == m,
    decreases n,
{
    lemma_decimal_digits(n);
    lemma_decimal_digits(m);
    if n < 10 && m < 10 {
        lemma_digit_char(n);
        lemma_digit_char(m);
        assert(decimal(n) == seq![digit_char(n)]);
        assert(decimal(m) == seq![digit_char(m)]);
        assert(seq![digit_char(n)][0] == digit_char(n));
        assert(seq![digit_char(m)][0] == digit_char(m));
        assert(decimal(n)[0] == decimal(m)[0]);
        assert(digit_char(n) == digit_char(m));
    } else if n >= 10 && m >= 10 {
        assert(decimal(n).drop_last() =~= decimal(n / 10));
        assert(decimal(m).drop_last() =~= decimal(m / 10));
        lemma_decimal_injective(n / 10, m / 10);
        lemma_digit_char(n % 10);
        lemma_digit_char(m % 10);
        assert(decimal(n) == decimal(n / 10).push(digit_char(n % 10)));
        assert(decimal(m) == decimal(m / 10).push(digit_char(m % 10)));
        assert(decimal(n / 10).push(digit_char(n % 10)).last() == digit_char(n % 10));
        assert(decimal(m / 10).push(digit_char(m % 10)).last() == digit_char(m % 10));
        assert(decimal(n).last() == decimal(m).last());
        assert(digit_char(n % 10) == digit_char(m % 10));
        assert(n % 10 == m % 10);
        assert(n == (n / 10) * 10 + n % 10);
        assert(m == (m / 10) * 10 + m % 10);
    } else if n < 10 {
        assert(decimal(n).len() == 1);
    } else {
        assert(decimal(m).len() == 1);
    }
}

/// A signed decimal text is made of digits after an optional leading '-',
/// which is there exactly when the number is negative.
pub proof fn lemma_signed_decimal_chars(i: int)
    ensures
        signed_decimal(i).len() >= 1,
        (signed_decimal(i)[0] == '-') <==> i < 0,
        forall|k: int|
            0 < k < signed_decimal(i).len() ==> 48 <= #[trigger] signed_decimal(i)[k] as u32 <= 57,
        i >= 0 ==> 48 <= signed_decimal(i)[0] as u32 <= 57,
{
    if i < 0 {
        lemma_decimal_digits((-i) as nat);
        assert forall|k: int| 0 < k < signed_decimal(i).len() implies 48
            <= #[trigger] signed_decimal(i)[k] as u32 <= 57 by {
            assert(signed_decimal(i)[k] == decimal((-i) as nat)[k - 1]);
        }
    } else {
        lemma_decimal_digits(i as nat);
    }
}

/// Different integers have different signed decimal texts: the text gives
/// back the number, sign included.
pub proof fn lemma_signed_decimal_injective(i: int, j: int)
    requires
        signed_decimal(i) == signed_decimal(j),
    ensures
        i == j,
{
    lemma_signed_decimal_chars(i);
    lemma_signed_decimal_chars(j);
    if i < 0 && j < 0 {
        assert(signed_decimal(i).drop_first() =~= decimal((-i) as nat));
        assert(signed_decimal(j).drop_first() =~= decimal((-j) as nat));
        lemma_decimal_injective((-i) as nat, (-j) as nat);
    } else if i >= 0 && j >= 0 {
        lemma_decimal_injective(i as nat, j as nat);
    }
}

} // verus!
