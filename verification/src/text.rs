use vstd::prelude::*;

verus! {

/// What `regex::Regex::find_iter` yields for the pattern `pattern` on the
/// haystack `text`: the matched substrings, from left to right, or nothing
/// where `regex::Regex::new` rejects the pattern.
pub uninterp spec fn regex_matches(pattern: Seq<char>, text: Seq<char>) -> Option<Seq<Seq<char>>>;

/// What `regex::Regex::split` yields for the pattern `pattern` on the
/// haystack `text`: the substrings between the matches, from left to right,
/// or nothing where `regex::Regex::new` rejects the pattern.
pub uninterp spec fn regex_gaps(pattern: Seq<char>, text: Seq<char>) -> Option<Seq<Seq<char>>>;

/// The characters of each of `strings`.
pub open spec fn views_of(strings: Seq<String>) -> Seq<Seq<char>> {
    Seq::new(strings.len(), |i: int| strings[i]@)
}

/// The characters of each of `strings`, where there are any.
pub open spec fn views_of_some(strings: Option<Vec<String>>) -> Option<Seq<Seq<char>>> {
    match strings {
        Some(found) => Some(views_of(found@)),
        None => None,
    }
}

/// Calls `regex::Regex::new` on `pattern` and `regex::Regex::find_iter` on
/// `text`. The contract names what comes back: the matched substrings in
/// order, or nothing for a pattern that does not compile.
#[verifier::external_body]
pub(crate) fn find_all(pattern: &str, text: &str) -> (r: Option<Vec<String>>)
    ensures
        views_of_some(r) == regex_matches(pattern@, text@),
{
    match regex::Regex::new(pattern) {
        Ok(compiled) => Some(compiled.find_iter(text).map(|found| found.as_str().to_owned()).collect()),
        Err(_) => None,
    }
}

/// Calls `regex::Regex::new` on `pattern` and `regex::Regex::split` on
/// `text`. The contract names what comes back: the substrings between the
/// matches in order, or nothing for a pattern that does not compile.
#[verifier::external_body]
pub(crate) fn split_all(pattern: &str, text: &str) -> (r: Option<Vec<String>>)
    ensures
        views_of_some(r) == regex_gaps(pattern@, text@),
{
    match regex::Regex::new(pattern) {
        Ok(compiled) => Some(compiled.split(text).map(|gap| gap.to_owned()).collect()),
        Err(_) => None,
    }
}

/// The characters of `text`, in order.
pub(crate) fn chars_of(text: &str) -> (r: Vec<char>)
    ensures
        r@ == text@,
{
    let mut out: Vec<char> = Vec::new();
    for c in it: text.chars()
        invariant
            it.seq() == text@,
            out@ == text@.take(it.index() as int),
    {
        out.push(c);
        assert(out@ =~= text@.take(it.index() + 1));
    }
    assert(text@.take(text@.len() as int) =~= text@);
    out
}

/// Calls `String::from_iter` on the characters of `chars`. The contract
/// claims what the standard library documents: the string holds those
/// characters, in order.
#[verifier::external_body]
pub(crate) fn string_of(chars: &Vec<char>) -> (r: String)
    ensures
        r@ == chars@,
{
    String::from_iter(chars.iter())
}

/// Appends the characters of `text` to `out`.
pub(crate) fn append_text(out: &mut Vec<char>, text: &str)
    ensures
        final(out)@ == old(out)@ + text@,
{
    let mut chars = chars_of(text);
    out.append(&mut chars);
}

/// Whether two strings hold the same characters.
pub(crate) fn same_text(a: &String, b: &String) -> (r: bool)
    ensures
        r == (a@ == b@),
{
    *a == *b
}

/// Whether `key` is among `list`.
pub(crate) fn contains_text(list: &Vec<String>, key: &String) -> (r: bool)
    ensures
        r == views_of(list@).contains(key@),
{
    let mut i: usize = 0;
    while i < list.len()
        invariant
            i <= list@.len(),
            forall|j: int| 0 <= j < i ==> views_of(list@)[j] != key@,
        decreases list@.len() - i,
    {
        if same_text(&list[i], key) {
            assert(views_of(list@)[i as int] == key@);
            return true;
        }
        i += 1;
    }
    false
}

} // verus!
