//! Number formatting for the results views.
use vstd::prelude::*;
use crate::settings::Separator;
use crate::text::{decimal_digits, decimal_text, digit_char, magnitude, push_digits};

verus! {

/// The character that groups thousands under a number format.
pub open spec fn thousands_mark(sep: Separator) -> char {
    match sep {
        Separator::CommaDecimalDotThousand => '.',
        Separator::DotDecimalCommaThousand => ',',
    }
}

/// Splits `ds` into groups of three counted from the right, joined by `mark`.
pub open spec fn group_thousands(ds: Seq<char>, mark: char) -> Seq<char>
    decreases ds.len(),
{
    if ds.len() <= 3 {
        ds
    } else {
        group_thousands(ds.take(ds.len() - 3), mark) + seq![mark] + ds.skip(ds.len() - 3)
    }
}

/// `number` in decimal with its digits grouped in threes by the thousands mark of `sep`,
/// and a leading `-` for negative numbers.
pub open spec fn thousand_separated(number: int, sep: Separator) -> Seq<char> {
    let digits = decimal_digits(if number < 0 { (-number) as nat } else { number as nat });
    let body = group_thousands(digits, thousands_mark(sep));
    if number < 0 {
        seq!['-'] + body
    } else {
        body
    }
}

/// The first `i` digits of `ds` as the left-to-right scan writes them: a mark before
/// each digit at a position `j > 0` with a multiple of three digits from `j` to the end.
spec fn scanned_prefix(ds: Seq<char>, mark: char, i: int) -> Seq<char>
    decreases i,
{
    if i <= 0 {
        seq![]
    } else {
        let j = i - 1;
        let prev = scanned_prefix(ds, mark, j);
        if j > 0 && (ds.len() - j) % 3 == 0 {
            prev.push(mark).push(ds[j])
        } else {
            prev.push(ds[j])
        }
    }
}

proof fn lemma_scanned_prefix_short(ds: Seq<char>, mark: char, i: int)
    requires
        ds.len() <= 3,
        0 <= i <= ds.len(),
    ensures
        scanned_prefix(ds, mark, i) == ds.take(i),
    decreases i,
{
    if i > 0 {
        lemma_scanned_prefix_short(ds, mark, i - 1);
        assert(ds.take(i) =~= ds.take(i - 1).push(ds[i - 1]));
    }
}

proof fn lemma_scanned_prefix_take(ds: Seq<char>, mark: char, k: int, i: int)
    requires
        0 <= k <= ds.len(),
        (ds.len() - k) % 3 == 0,
        0 <= i <= k,
    ensures
        scanned_prefix(ds, mark, i) == scanned_prefix(ds.take(k), mark, i),
    decreases i,
{
    if i > 0 {
        lemma_scanned_prefix_take(ds, mark, k, i - 1);
        let j = i - 1;
        assert((ds.len() - j) % 3 == (k - j) % 3);
    }
}

proof fn lemma_scanned_is_grouped(ds: Seq<char>, mark: char)
    ensures
        scanned_prefix(ds, mark, ds.len() as int) == group_thousands(ds, mark),
    decreases ds.len(),
{
    let n = ds.len() as int;
    if n <= 3 {
        lemma_scanned_prefix_short(ds, mark, n);
        assert(ds.take(n) =~= ds);
    } else {
        let t = ds.take(n - 3);
        lemma_scanned_is_grouped(t, mark);
        lemma_scanned_prefix_take(ds, mark, n - 3, n - 3);
        assert(t.len() == n - 3);
        let p = scanned_prefix(ds, mark, n - 3);
        assert(scanned_prefix(ds, mark, n - 2) == p.push(mark).push(ds[n - 3]));
        assert(scanned_prefix(ds, mark, n - 1) == p.push(mark).push(ds[n - 3]).push(ds[n - 2]));
        assert(scanned_prefix(ds, mark, n) == p.push(mark).push(ds[n - 3]).push(ds[n - 2]).push(
            ds[n - 1],
        ));
        assert(p.push(mark).push(ds[n - 3]).push(ds[n - 2]).push(ds[n - 1]) =~= p + seq![mark]
            + ds.skip(n - 3));
    }
}

/// Groups the digits of `number` in threes with the thousands mark of `sep`
/// (`1234567` becomes `1.234.567` or `1,234,567`).
pub fn thousand_separator_with(number: i64, sep: Separator) -> (s: String)
    ensures
        s@ == thousand_separated(number as int, sep),
{
    let mut digits: Vec<char> = Vec::new();
    push_digits(magnitude(number), &mut digits);
    assert(digits@ =~= decimal_digits(
        if number < 0 { (-number) as nat } else { number as nat },
    ));
    let mark = match sep {
        Separator::CommaDecimalDotThousand => '.',
        Separator::DotDecimalCommaThousand => ',',
    };
    let len = digits.len();
    let mut out = String::new();
    if number < 0 {
        out.push('-');
    }
    let ghost start = out@;
    let mut i: usize = 0;
    while i < len
        invariant
            len == digits@.len(),
            i <= len,
            out@ == start + scanned_prefix(digits@, mark, i as int),
        decreases len - i,
    {
        if i > 0 && (len - i) % 3 == 0 {
            out.push(mark);
        }
        out.push(digits[i]);
        i = i + 1;
    }
    proof {
        lemma_scanned_is_grouped(digits@, mark);
        if number >= 0 {
            assert(start =~= Seq::<char>::empty());
            assert(out@ =~= thousand_separated(number as int, sep));
        }
    }
    out
}

/// Removing the thousands marks again gives the plain decimal digits.
pub proof fn lemma_group_thousands_keeps_digits(ds: Seq<char>, mark: char)
    requires
        !ds.contains(mark),
    ensures
        group_thousands(ds, mark).filter(|c: char| c != mark) == ds,
    decreases ds.len(),
{
    reveal_with_fuel(Seq::filter, 1);
    if ds.len() <= 3 {
        assert forall|i: int| 0 <= i < ds.len() implies ds[i] != mark by {
            assert(ds.contains(ds[i]));
        }
        lemma_filter_all_pass(ds, mark);
    } else {
        let n = ds.len() as int;
        let t = ds.take(n - 3);
        let r = ds.skip(n - 3);
        assert forall|i: int| 0 <= i < t.len() implies t[i] != mark by {
            assert(ds[i] == t[i]);
            assert(ds.contains(ds[i]));
        }
        assert(!t.contains(mark));
        lemma_group_thousands_keeps_digits(t, mark);
        let f = |c: char| c != mark;
        Seq::filter_distributes_over_add(
            group_thousands(t, mark) + seq![mark],
            r,
            f,
        );
        Seq::filter_distributes_over_add(group_thousands(t, mark), seq![mark], f);
        assert(seq![mark].filter(f) =~= Seq::<char>::empty()) by {
            reveal_with_fuel(Seq::filter, 2);
            assert(seq![mark].drop_last() =~= Seq::<char>::empty());
        }
        assert forall|i: int| 0 <= i < r.len() implies r[i] != mark by {
            assert(ds[n - 3 + i] == r[i]);
            assert(ds.contains(ds[n - 3 + i]));
        }
        lemma_filter_all_pass(r, mark);
        assert(t + r =~= ds);
    }
}

proof fn lemma_filter_all_pass(s: Seq<char>, mark: char)
    requires
        forall|i: int| 0 <= i < s.len() ==> s[i] != mark,
    ensures
        s.filter(|c: char| c != mark) == s,
    decreases s.len(),
{
    reveal_with_fuel(Seq::filter, 1);
    if s.len() > 0 {
        lemma_filter_all_pass(s.drop_last(), mark);
        assert(s.drop_last().push(s.last()) =~= s);
    }
}

proof fn lemma_decimal_digits_are_digits(n: nat)
    ensures
        forall|i: int|
            0 <= i < decimal_digits(n).len() ==> '0' <= #[trigger] decimal_digits(n)[i] <= '9',
    decreases n,
{
    if n >= 10 {
        lemma_decimal_digits_are_digits(n / 10);
        let d = decimal_digits(n / 10);
        assert forall|i: int| 0 <= i < decimal_digits(n).len() implies '0' <= #[trigger] decimal_digits(
            n,
        )[i] <= '9' by {
            if i < d.len() {
                assert(decimal_digits(n)[i] == d[i]);
            }
        }
    }
}

proof fn lemma_decimal_digits_short(n: nat)
    requires
        n < 1000,
    ensures
        decimal_digits(n).len() <= 3,
{
    if n >= 10 {
        let a: nat = n / 10;
        assert(decimal_digits(n).len() == decimal_digits(a).len() + 1);
        if a >= 10 {
            let b: nat = a / 10;
            assert(b < 10);
            assert(decimal_digits(a).len() == decimal_digits(b).len() + 1);
            assert(decimal_digits(b).len() == 1);
        } else {
            assert(decimal_digits(a).len() == 1);
        }
    }
}

/// Taking the thousands marks out of a grouped number gives its plain decimal text.
pub proof fn lemma_thousand_separated_keeps_digits(number: int, sep: Separator)
    ensures
        thousand_separated(number, sep).filter(|c: char| c != thousands_mark(sep)) == decimal_text(
            number,
        ),
{
    let m = thousands_mark(sep);
    let n: nat = if number < 0 { (-number) as nat } else { number as nat };
    let ds = decimal_digits(n);
    lemma_decimal_digits_are_digits(n);
    assert(!ds.contains(m)) by {
        if ds.contains(m) {
            let i = choose|i: int| 0 <= i < ds.len() && ds[i] == m;
            assert('0' <= ds[i] <= '9');
        }
    }
    lemma_group_thousands_keeps_digits(ds, m);
    if number < 0 {
        let f = |c: char| c != m;
        Seq::filter_distributes_over_add(seq!['-'], group_thousands(ds, m), f);
        assert(seq!['-'].filter(f) =~= seq!['-']) by {
            reveal_with_fuel(Seq::filter, 2);
            assert(seq!['-'].drop_last() =~= Seq::<char>::empty());
        }
    }
}

/// Numbers below one thousand (in magnitude) get no thousands mark.
pub proof fn lemma_no_mark_below_one_thousand(number: int, sep: Separator)
    requires
        -1000 < number < 1000,
    ensures
        thousand_separated(number, sep) == decimal_text(number),
{
    let n: nat = if number < 0 { (-number) as nat } else { number as nat };
    lemma_decimal_digits_short(n);
}

} // verus!
