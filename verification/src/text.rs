use vstd::prelude::*;
use crate::numeral::{digits_value, is_digit, unsigned_numeral};

verus! {

/// Whether two texts are equal.
pub fn same_text(a: &str, b: &str) -> (r: bool)
    ensures
        r == (a@ == b@),
{
    let x = a.to_owned();
    let y = b.to_owned();
    x == y
}

/// The text `str::to_lowercase` makes of a text: its characters mapped to
/// lower case by the Unicode `Lowercase` property.
pub uninterp spec fn lowercase(t: Seq<char>) -> Seq<char>;

/// Wraps `str::to_lowercase`; its result depends on the text alone, and is
/// named rather than stated: the Unicode case tables are not written out.
#[verifier::external_body]
pub(crate) fn to_lowercase(t: &str) -> (r: String)
    ensures
        r@ == lowercase(t@),
{
    t.to_lowercase()
}

/// The decimal digits, in order.
pub open spec fn digit_chars() -> Seq<char> {
    "0123456789"@
}

/// The decimal numeral of `n`, without leading zeros.
pub open spec fn decimal(n: nat) -> Seq<char>
    decreases n,
{
    if n < 10 {
        seq![digit_chars()[n as int]]
    } else {
        decimal(n / 10).push(digit_chars()[(n % 10) as int])
    }
}

/// The one-character text of digit `d`.
fn digit_text(d: u128) -> (r: &'static str)
    requires
        d < 10,
    ensures
        r@ == seq![digit_chars()[d as int]],
{
    let all = "0123456789";
    proof {
        reveal_strlit("0123456789");
    }
    let r = all.substring_char(d as usize, d as usize + 1);
    assert(r@ =~= seq![digit_chars()[d as int]]);
    r
}

/// The decimal numeral of `n`.
pub fn decimal_text(n: u128) -> (r: String)
    ensures
        r@ == decimal(n as nat),
    decreases n,
{
    if n < 10 {
        String::from_str(digit_text(n))
    } else {
        let mut s = decimal_text(n / 10);
        s.append(digit_text(n % 10));
        assert(s@ =~= decimal(n as nat));
        s
    }
}

proof fn lemma_digit_chars()
    ensures
        digit_chars().len() == 10,
        forall|d: int| 0 <= d < 10 ==> #[trigger] (digit_chars()[d] as int) == 48 + d,
{
    reveal_strlit("0123456789");
    assert(digit_chars() =~= seq!['0', '1', '2', '3', '4', '5', '6', '7', '8', '9']);
}

proof fn lemma_decimal_digits(n: nat)
    ensures
        decimal(n).len() > 0,
        forall|i: int| 0 <= i < decimal(n).len() ==> is_digit(#[trigger] decimal(n)[i]),
        digits_value(decimal(n)) == n,
    decreases n,
{
    lemma_digit_chars();
    if n < 10 {
        let t = decimal(n);
        assert(digit_chars()[n as int] as int == 48 + n);
        assert(t[0] == digit_chars()[n as int]);
        assert(t.drop_last() =~= Seq::<char>::empty());
        assert forall|i: int| 0 <= i < t.len() implies is_digit(#[trigger] t[i]) by {
            assert(i == 0);
        }
        assert(digits_value(t.drop_last()) == 0);
    } else {
        lemma_decimal_digits(n / 10);
        let t = decimal(n);
        let d = (n % 10) as int;
        assert(t.drop_last() =~= decimal(n / 10));
        assert(t.last() == digit_chars()[d]);
        assert(digit_chars()[d] as int == 48 + d);
        vstd::arithmetic::div_mod::lemma_fundamental_div_mod(n as int, 10);
        assert forall|i: int| 0 <= i < t.len() implies is_digit(#[trigger] t[i]) by {
            if i < t.len() - 1 {
                assert(t[i] == decimal(n / 10)[i]);
            }
        }
    }
}

/// Decimal numerals read back as the numbers they were written from: every
/// number written into a timestamp, a capture name or an export path is
/// recovered by the numeral reader of the command line.
pub proof fn law_decimal_reads_back(n: nat)
    ensures
        unsigned_numeral(decimal(n)) == Some(n as int),
{
    lemma_decimal_digits(n);
    assert(is_digit(decimal(n)[0]));
}

} // verus!
