use vstd::prelude::*;
use vstd::string::StringExecFns;

verus! {

/// The decimal digit for `d`.
pub open spec fn digit(d: nat) -> char {
    if d == 0 {
        '0'
    } else if d == 1 {
        '1'
    } else if d == 2 {
        '2'
    } else if d == 3 {
        '3'
    } else if d == 4 {
        '4'
    } else if d == 5 {
        '5'
    } else if d == 6 {
        '6'
    } else if d == 7 {
        '7'
    } else if d == 8 {
        '8'
    } else {
        '9'
    }
}

/// The decimal numeral of `n`, without leading zeros.
pub open spec fn decimal(n: nat) -> Seq<char>
    decreases n,
{
    if n < 10 {
        seq![digit(n)]
    } else {
        decimal(n / 10).push(digit(n % 10))
    }
}

/// The name of the appender at position `i`: `sink` and its decimal index.
pub open spec fn sink_name(i: nat) -> Seq<char> {
    "sink"@ + decimal(i)
}

proof fn lemma_decimal_len(n: nat)
    ensures
        decimal(n).len() >= 1,
        n >= 10 ==> decimal(n).len() >= 2,
    decreases n,
{
    if n >= 10 {
        lemma_decimal_len(n / 10);
        assert(decimal(n) == decimal(n / 10).push(digit(n % 10)));
    } else {
        assert(decimal(n) == seq![digit(n)]);
    }
}

proof fn lemma_digit_injective(x: nat, y: nat)
    requires
        x < 10,
        y < 10,
        digit(x) == digit(y),
    ensures
        x == y,
{
}

proof fn lemma_decimal_injective(a: nat, b: nat)
    requires
        decimal(a) == decimal(b),
    ensures
        a == b,
    decreases a,
{
    lemma_decimal_len(a);
    lemma_decimal_len(b);
    if a >= 10 && b >= 10 {
        assert(decimal(a) == decimal(a / 10).push(digit(a % 10)));
        assert(decimal(b) == decimal(b / 10).push(digit(b % 10)));
        assert(decimal(a).last() == digit(a % 10));
        assert(decimal(b).last() == digit(b % 10));
        assert(decimal(a).drop_last() =~= decimal(a / 10));
        assert(decimal(b).drop_last() =~= decimal(b / 10));
        lemma_decimal_injective(a / 10, b / 10);
        lemma_digit_injective(a % 10, b % 10);
        assert(a == 10 * (a / 10) + a % 10);
        assert(b == 10 * (b / 10) + b % 10);
    } else if a < 10 && b < 10 {
        assert(decimal(a) == seq![digit(a)]);
        assert(decimal(b) == seq![digit(b)]);
        assert(seq![digit(a)][0] == digit(a));
        assert(seq![digit(b)][0] == digit(b));
        lemma_digit_injective(a, b);
    } else if a < 10 {
        assert(decimal(a) == seq![digit(a)]);
    } else {
        assert(decimal(b) == seq![digit(b)]);
    }
}

/// Different positions give different appender names.
pub proof fn lemma_sink_names_distinct(i: nat, j: nat)
    requires
        i != j,
    ensures
        sink_name(i) != sink_name(j),
{
    reveal_strlit("sink");
    if sink_name(i) == sink_name(j) {
        assert(sink_name(i).subrange(4, sink_name(i).len() as int) =~= decimal(i));
        assert(sink_name(j).subrange(4, sink_name(j).len() as int) =~= decimal(j));
        lemma_decimal_injective(i, j);
    }
}

fn digit_text(d: usize) -> (r: &'static str)
    requires
        d < 10,
    ensures
        r@ == seq![digit(d as nat)],
{
    proof {
        reveal_strlit("0");
        reveal_strlit("1");
        reveal_strlit("2");
        reveal_strlit("3");
        reveal_strlit("4");
        reveal_strlit("5");
        reveal_strlit("6");
        reveal_strlit("7");
        reveal_strlit("8");
        reveal_strlit("9");
    }
    let r = if d == 0 {
        "0"
    } else if d == 1 {
        "1"
    } else if d == 2 {
        "2"
    } else if d == 3 {
        "3"
    } else if d == 4 {
        "4"
    } else if d == 5 {
        "5"
    } else if d == 6 {
        "6"
    } else if d == 7 {
        "7"
    } else if d == 8 {
        "8"
    } else {
        "9"
    };
    assert(r@ =~= seq![digit(d as nat)]);
    r
}

/// The decimal numeral of `n`.
pub fn decimal_text(n: usize) -> (r: String)
    ensures
        r@ == decimal(n as nat),
    decreases n,
{
    if n < 10 {
        String::from_str(digit_text(n))
    } else {
        let r = decimal_text(n / 10).concat(digit_text(n % 10));
        assert(r@ =~= decimal(n as nat));
        r
    }
}

/// The name of the appender at position `i`.
pub fn sink_name_text(i: usize) -> (r: String)
    ensures
        r@ == sink_name(i as nat),
{
    proof {
        reveal_strlit("sink");
    }
    String::from_str("sink").concat(decimal_text(i).as_str())
}

} // verus!
