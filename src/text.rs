use vstd::prelude::*;

verus! {

/// `prefix` followed by `rest`.
pub fn joined(prefix: &str, rest: &str) -> (r: String)
    ensures
        r@ == prefix@ + rest@,
{
    let mut s = prefix.to_owned();
    s.append(rest);
    s
}

/// `prefix`, then `middle`, then `suffix`.
pub fn framed(prefix: &str, middle: &str, suffix: &str) -> (r: String)
    ensures
        r@ == prefix@ + middle@ + suffix@,
{
    let mut s = prefix.to_owned();
    s.append(middle);
    s.append(suffix);
    s
}

/// Whether the two texts are the same.
pub fn same_text(a: &str, b: &str) -> (r: bool)
    ensures
        r == (a@ == b@),
{
    a.to_owned() == b.to_owned()
}

} // verus!
