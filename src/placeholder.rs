//! Names for the bindings of positional fields in generated match arms.
//!
//! The field at index `i` is bound to `x` followed by `i` in decimal. Distinct
//! indices give distinct names, and a variant with positional fields has no
//! named ones, so the bindings of one arm never collide.
use vstd::arithmetic::div_mod::lemma_fundamental_div_mod;
use vstd::prelude::*;
use vstd::string::StringExecFns;

verus! {

pub open spec fn digit(d: nat) -> char {
    seq!['0', '1', '2', '3', '4', '5', '6', '7', '8', '9'][d as int]
}

/// `n` written in decimal, without leading zeros.
pub open spec fn decimal(n: nat) -> Seq<char>
    decreases n,
{
    if n < 10 {
        seq![digit(n)]
    } else {
        decimal(n / 10) + seq![digit(n % 10)]
    }
}

/// The binding name of the positional field at `index`.
pub open spec fn placeholder_name(index: nat) -> Seq<char> {
    seq!['x'] + decimal(index)
}

proof fn lemma_digit_injective(a: nat, b: nat)
    requires
        a < 10,
        b < 10,
        digit(a) == digit(b),
    ensures
        a == b,
{
    let ds = seq!['0', '1', '2', '3', '4', '5', '6', '7', '8', '9'];
    assert(ds[0] == '0' && ds[1] == '1' && ds[2] == '2' && ds[3] == '3' && ds[4] == '4');
    assert(ds[5] == '5' && ds[6] == '6' && ds[7] == '7' && ds[8] == '8' && ds[9] == '9');
}

proof fn lemma_decimal_len(n: nat)
    ensures
        decimal(n).len() >= 1,
        n >= 10 ==> decimal(n).len() >= 2,
    decreases n,
{
    if n >= 10 {
        lemma_decimal_len(n / 10);
    }
}

/// Decimal notation is injective.
pub proof fn lemma_decimal_injective(a: nat, b: nat)
    requires
        decimal(a) == decimal(b),
    ensures
        a == b,
    decreases a,
{
    lemma_decimal_len(a);
    lemma_decimal_len(b);
    let da = decimal(a);
    let db = decimal(b);
    assert(da.last() == db.last());
    if a < 10 && b < 10 {
        lemma_digit_injective(a, b);
    } else if a >= 10 && b >= 10 {
        assert(da.last() == digit(a % 10));
        assert(db.last() == digit(b % 10));
        lemma_digit_injective(a % 10, b % 10);
        assert(da.drop_last() =~= decimal(a / 10));
        assert(db.drop_last() =~= decimal(b / 10));
        lemma_decimal_injective(a / 10, b / 10);
        lemma_fundamental_div_mod(a as int, 10);
        lemma_fundamental_div_mod(b as int, 10);
    }
}

/// Distinct indices get distinct binding names.
pub proof fn lemma_placeholders_distinct(i: nat, j: nat)
    requires
        i != j,
    ensures
        placeholder_name(i) != placeholder_name(j),
{
    if placeholder_name(i) == placeholder_name(j) {
        assert(placeholder_name(i).drop_first() =~= decimal(i));
        assert(placeholder_name(j).drop_first() =~= decimal(j));
        lemma_decimal_injective(i, j);
    }
}

fn digit_str(d: usize) -> (r: &'static str)
    requires
        d < 10,
    ensures
        r@ == seq![digit(d as nat)],
{
    let r = match d {
        0 => "0",
        1 => "1",
        2 => "2",
        3 => "3",
        4 => "4",
        5 => "5",
        6 => "6",
        7 => "7",
        8 => "8",
        _ => "9",
    };
    proof {
        reveal_strlit("0");
        reveal_strlit("1");
        reveal_strlit("2");
        reveal_strlit("3");
        reveal_strlit("4");
        reveal_strlit("5");
        reveal_strlit("6");
        reveal_strlit("7");
        reveal_strlit("8");
        reveal_strlit("9");
        assert(r@ =~= seq![digit(d as nat)]);
    }
    r
}

fn decimal_string(n: usize) -> (r: String)
    ensures
        r@ == decimal(n as nat),
    decreases n,
{
    if n < 10 {
        digit_str(n).to_string()
    } else {
        let r = decimal_string(n / 10).concat(digit_str(n % 10));
        assert(r@ =~= decimal(n as nat));
        r
    }
}

/// The binding name of the positional field at `index`: `x0`, `x1`, ...
pub fn placeholder(index: usize) -> (r: String)
    ensures
        r@ == placeholder_name(index as nat),
{
    proof {
        reveal_strlit("x");
    }
    let r = "x".to_string().concat(decimal_string(index).as_str());
    assert(r@ =~= placeholder_name(index as nat));
    r
}

} // verus!
