use vstd::prelude::*;

verus! {

/// Whether two strings hold the same characters.
pub fn text_equals(a: &str, b: &str) -> (r: bool)
    ensures
        r == (a@ == b@),
{
    let left: String = a.to_owned();
    let right: String = b.to_owned();
    left == right
}

/// The character of a decimal digit.
pub open spec fn digit_char(d: nat) -> char {
    if d == 0 {
        '0'
    } else if d == 1 {
        '1'
    } else if d == 2 {
        '2'
    } else if d == 3 {
        '3'
    } else if d == 4 {
        '4'
    } else if d == 5 {
        '5'
    } else if d == 6 {
        '6'
    } else if d == 7 {
        '7'
    } else if d == 8 {
        '8'
    } else {
        '9'
    }
}

/// The decimal spelling of `n`: its digits, most significant first, with no
/// leading zeros.
pub open spec fn decimal_spec(n: nat) -> Seq<char>
    decreases n,
{
    if n < 10 {
        seq![digit_char(n)]
    } else {
        decimal_spec(n / 10) + seq![digit_char(n % 10)]
    }
}

fn digit_text(d: u64) -> (r: &'static str)
    requires
        d < 10,
    ensures
        r@ == seq![digit_char(d as nat)],
{
    proof {
        reveal_strlit("0");
        reveal_strlit("1");
        reveal_strlit("2");
        reveal_strlit("3");
        reveal_strlit("4");
        reveal_strlit("5");
        reveal_strlit("6");
        reveal_strlit("7");
        reveal_strlit("8");
        reveal_strlit("9");
    }
    let r = if d == 0 {
        "0"
    } else if d == 1 {
        "1"
    } else if d == 2 {
        "2"
    } else if d == 3 {
        "3"
    } else if d == 4 {
        "4"
    } else if d == 5 {
        "5"
    } else if d == 6 {
        "6"
    } else if d == 7 {
        "7"
    } else if d == 8 {
        "8"
    } else {
        "9"
    };
    assert(r@ =~= seq![digit_char(d as nat)]);
    r
}

/// Spells `n` in decimal.
pub fn decimal(n: u64) -> (r: String)
    ensures
        r@ == decimal_spec(n as nat),
    decreases n,
{
    if n < 10 {
        String::from_str(digit_text(n))
    } else {
        let mut text = decimal(n / 10);
        text.append(digit_text(n % 10));
        text
    }
}

/// The number a string of decimal digits denotes, most significant first.
pub open spec fn digits_value(digits: Seq<char>) -> int
    decreases digits.len(),
{
    if digits.len() == 0 {
        0
    } else {
        digits_value(digits.drop_last()) * 10 + (digits.last() as int - '0' as int)
    }
}

/// The decimal spelling of `n` is made of the digits `0` to `9`, starts with
/// `0` only for zero itself, and reads back as `n`.
pub proof fn lemma_decimal_reads_back(n: nat)
    ensures
        decimal_spec(n).len() > 0,
        forall|i: int| 0 <= i < decimal_spec(n).len() ==> '0' as int <= #[trigger] decimal_spec(n)[i] as int <= '9' as int,
        decimal_spec(n)[0] == '0' ==> n == 0,
        digits_value(decimal_spec(n)) == n,
    decreases n,
{
    if n < 10 {
        let s = decimal_spec(n);
        assert(s =~= seq![digit_char(n)]);
        assert(s.drop_last() =~= Seq::<char>::empty());
        assert(digit_char(n) as int == '0' as int + n);
        assert(digits_value(Seq::<char>::empty()) == 0);
        assert(digits_value(s) == digits_value(s.drop_last()) * 10 + (s.last() as int - '0' as int));
    } else {
        let q = n / 10;
        let d = n % 10;
        lemma_decimal_reads_back(q);
        let s = decimal_spec(n);
        assert(s == decimal_spec(q) + seq![digit_char(d)]);
        assert(s.drop_last() =~= decimal_spec(q));
        assert(s.last() == digit_char(d));
        assert(digit_char(d) as int == '0' as int + d);
        assert(q * 10 + d == n) by (nonlinear_arith)
            requires
                q == n / 10,
                d == n % 10,
        ;
        assert(q > 0) by (nonlinear_arith)
            requires
                q == n / 10,
                n >= 10,
        ;
        assert(digits_value(s) == digits_value(s.drop_last()) * 10 + (s.last() as int - '0' as int));
        assert(s[0] == decimal_spec(q)[0]);
        assert forall|i: int| 0 <= i < s.len() implies '0' as int <= #[trigger] s[i] as int <= '9' as int by {
            if i < decimal_spec(q).len() {
                assert(s[i] == decimal_spec(q)[i]);
            }
        }
    }
}

} // verus!
