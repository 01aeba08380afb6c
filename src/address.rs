use vstd::prelude::*;

verus! {

/// A broker address with one trailing `/` taken off, if it has one.
pub open spec fn without_trailing_slash(s: Seq<char>) -> Seq<char> {
    if s.len() > 0 && s.last() == '/' {
        s.drop_last()
    } else {
        s
    }
}

/// Normalizes a broker address before it is used to connect: one trailing
/// path separator is dropped, anything else is kept as it is.
pub fn remove_trailing_slash(string: &str) -> (r: String)
    ensures
        r@ == without_trailing_slash(string@),
{
    let n = string.unicode_len();
    if n > 0 && string.get_char(n - 1) == '/' {
        String::from_str(string.substring_char(0, n - 1))
    } else {
        String::from_str(string)
    }
}

} // verus!
