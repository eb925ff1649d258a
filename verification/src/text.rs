//! Comparing texts by their characters, and the decimal text of numbers.

use vstd::prelude::*;
use vstd::string::*;

verus! {

/// Whether two texts have the same characters.
pub fn str_eq(a: &str, b: &str) -> (res: bool)
    ensures
        res == (a@ == b@),
{
    let n = b.unicode_len();
    if a.unicode_len() != n {
        return false;
    }
    let mut i: usize = 0;
    while i < n
        invariant
            n == a@.len(),
            n == b@.len(),
            i <= n,
            forall|j: int| 0 <= j < i ==> a@[j] == b@[j],
        decreases n - i,
    {
        if a.get_char(i) != b.get_char(i) {
            return false;
        }
        i = i + 1;
    }
    assert(a@ =~= b@);
    true
}

/// Some string of `list` has the text `t`.
pub open spec fn texts_contain(list: Seq<String>, t: Seq<char>) -> bool {
    exists|i: int| 0 <= i < list.len() && #[trigger] list[i]@ == t
}

/// Whether some string of `list` has the text of `t`.
pub fn contains_text(list: &Vec<String>, t: &str) -> (res: bool)
    ensures
        res == texts_contain(list@, t@),
{
    let mut i: usize = 0;
    while i < list.len()
        invariant
            i <= list@.len(),
            forall|j: int| 0 <= j < i ==> list@[j]@ != t@,
        decreases list.len() - i,
    {
        if str_eq(list[i].as_str(), t) {
            return true;
        }
        i = i + 1;
    }
    false
}

/// Decimal text of a natural number.
pub open spec fn decimal_digits(n: nat) -> Seq<char>
    decreases n,
{
    if n < 10 {
        seq![(48 + n) as char]
    } else {
        decimal_digits(n / 10).push((48 + n % 10) as char)
    }
}

/// Decimal text of an integer, with a leading '-' when it is negative.
pub open spec fn decimal_text(v: int) -> Seq<char> {
    if v < 0 {
        seq!['-'] + decimal_digits((-v) as nat)
    } else {
        decimal_digits(v as nat)
    }
}

/// `<u64 as ToString>::to_string`: the decimal text of the value.
#[verifier::external_body]
pub(crate) fn u64_to_string(v: u64) -> (res: String)
    ensures
        res@ == decimal_text(v as int),
{
    v.to_string()
}

} // verus!
