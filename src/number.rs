use vstd::prelude::*;
use vstd::string::*;

verus! {

/// A phone number as the service expects it in a query: without a leading `+`.
pub open spec fn bare_number(n: Seq<char>) -> Seq<char> {
    if n.len() > 0 && n[0] == '+' {
        n.subrange(1, n.len() as int)
    } else {
        n
    }
}

/// Strips one leading `+` from a phone number, if there is one.
pub fn strip_leading_plus(n: &str) -> (r: &str)
    ensures
        r@ == bare_number(n@),
{
    let len = n.unicode_len();
    if len > 0 && n.get_char(0) == '+' {
        n.substring_char(1, len)
    } else {
        n
    }
}

/// A number written with a leading `+` and the same number written without
/// it give the same bare number.
pub proof fn lemma_plus_is_ignored(n: Seq<char>)
    requires
        n.len() == 0 || n[0] != '+',
    ensures
        bare_number(seq!['+'] + n) == bare_number(n),
{
    assert((seq!['+'] + n).subrange(1, n.len() + 1int) =~= n);
}

} // verus!
