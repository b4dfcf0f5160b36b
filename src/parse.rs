use vstd::prelude::*;
use vstd::string::StrSliceExecFns;

verus! {

/// No character of `s` before position `end` is `c`.
pub open spec fn absent_before(s: Seq<char>, c: char, end: int) -> bool {
    forall|j: int| 0 <= j < end ==> s[j] != c
}

/// `i` is the position of the first `c` in `s`.
pub open spec fn is_first_index(s: Seq<char>, c: char, i: int) -> bool {
    0 <= i < s.len() && s[i] == c && absent_before(s, c, i)
}

/// Splits `s` around the first occurrence of `separator`: the text before it
/// and the text after it, or `None` where `s` does not hold the separator.
pub fn split_pair<'a>(s: &'a str, separator: char) -> (r: Option<(&'a str, &'a str)>)
    ensures
        r is None <==> absent_before(s@, separator, s@.len() as int),
        r matches Some((left, right)) ==> is_first_index(s@, separator, left@.len() as int)
            && left@ == s@.subrange(0, left@.len() as int)
            && right@ == s@.subrange(left@.len() as int + 1, s@.len() as int),
{
    let n = s.unicode_len();
    let mut i: usize = 0;
    while i < n
        invariant
            n == s@.len(),
            i <= n,
            absent_before(s@, separator, i as int),
        decreases n - i,
    {
        if s.get_char(i) == separator {
            let left = s.substring_char(0, i);
            let right = s.substring_char(i + 1, n);
            return Some((left, right));
        }
        i = i + 1;
    }
    None
}

/// Pairs two parsed components: `Some` only where both parsed.
pub fn pair_of<T>(left: Option<T>, right: Option<T>) -> (r: Option<(T, T)>)
    ensures
        r == (match (left, right) {
            (Some(l), Some(x)) => Some((l, x)),
            _ => None,
        }),
{
    match (left, right) {
        (Some(l), Some(x)) => Some((l, x)),
        _ => None,
    }
}

/// Relies on `str::parse`, that is `T`'s `FromStr::from_str`: which text is
/// accepted, and what it gives, is `T`'s own rule, so nothing is stated of it.
#[verifier::external_body]
fn parse_component<T: core::str::FromStr>(s: &str) -> Option<T> {
    s.parse::<T>().ok()
}

/// Parses `s` as `<left><separator><right>`, like `"400x600"` or
/// `"1.0,0.5"`: `s` is split at the first `separator`, and each side is
/// parsed by `T`'s `FromStr`. Gives `None` where `s` holds no separator or
/// either side does not parse.
pub fn parse_pair<T: core::str::FromStr>(s: &str, separator: char) -> (r: Option<(T, T)>)
    ensures
        absent_before(s@, separator, s@.len() as int) ==> r is None,
{
    match split_pair(s, separator) {
        None => None,
        Some((left, right)) => pair_of(parse_component::<T>(left), parse_component::<T>(right)),
    }
}

} // verus!
