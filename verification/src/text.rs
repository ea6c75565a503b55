use vstd::prelude::*;
use vstd::string::StringExecFns;

verus! {

/// Whether `s` is exactly `text`.
pub(crate) fn is_text(s: &String, text: &str) -> (res: bool)
    ensures
        res == (s@ == text@),
{
    let text: String = text.to_owned();
    *s == text
}

/// `a` followed by `b`.
pub(crate) fn joined(a: &str, b: &str) -> (res: String)
    ensures
        res@ == a@ + b@,
{
    a.to_owned().concat(b)
}

} // verus!
