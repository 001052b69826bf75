//! Text normalisation for extension lists and path extensions.

use vstd::prelude::*;

verus! {

/// What `str::trim` leaves of `s`: the text without its leading and trailing
/// whitespace, where whitespace is the Unicode property `White_Space`.
pub uninterp spec fn trimmed(s: Seq<char>) -> Seq<char>;

/// What `str::to_lowercase` makes of `s`: its lowercase form under the Unicode
/// property `Lowercase`.
pub uninterp spec fn lowercased(s: Seq<char>) -> Seq<char>;

/// `str::trim` returns the text named [`trimmed`]; it depends on the characters
/// of `s` alone.
pub assume_specification[ str::trim ](s: &str) -> (r: &str)
    ensures
        r@ == trimmed(s@),
;

/// `str::to_lowercase` returns a new string holding the text named
/// [`lowercased`]; it depends on the characters of `s` alone.
pub assume_specification[ str::to_lowercase ](s: &str) -> (r: String)
    ensures
        r@ == lowercased(s@),
;

/// `s` without every `c` that stands at its start.
pub open spec fn without_leading(s: Seq<char>, c: char) -> Seq<char>
    decreases s.len(),
{
    if s.len() > 0 && s[0] == c {
        without_leading(s.drop_first(), c)
    } else {
        s
    }
}

/// `str::trim_start_matches` with a `char` pattern: removes the pattern from
/// the start for as long as it matches, so the result is `s` from its first
/// character other than `c` on.
#[verifier::external_body]
fn trim_start_matches<'a>(s: &'a str, c: char) -> (r: &'a str)
    ensures
        r@ == without_leading(s@, c),
{
    s.trim_start_matches(c)
}

/// The form in which an extension is stored and compared: trimmed, without
/// leading dots, in lowercase.
pub open spec fn normalized_extension(raw: Seq<char>) -> Seq<char> {
    lowercased(without_leading(trimmed(raw), '.'))
}

/// Every extension of a list in its normalised form, in the same order.
pub open spec fn normalized_extensions(raw: Seq<Seq<char>>) -> Seq<Seq<char>> {
    raw.map_values(|e: Seq<char>| normalized_extension(e))
}

/// The texts of a list of strings, in order.
pub open spec fn texts(list: Seq<String>) -> Seq<Seq<char>> {
    list.map_values(|s: String| s@)
}

/// Normalises one extension as the user wrote it.
pub fn normalize_extension(raw: &str) -> (r: String)
    ensures
        r@ == normalized_extension(raw@),
{
    trim_start_matches(raw.trim(), '.').to_lowercase()
}

/// Normalises every extension of a list, keeping the order.
pub fn normalize_extensions(raw: Vec<String>) -> (r: Vec<String>)
    ensures
        r@.len() == raw@.len(),
        texts(r@) == normalized_extensions(texts(raw@)),
{
    let mut out: Vec<String> = Vec::new();
    let mut i: usize = 0;
    while i < raw.len()
        invariant
            i <= raw.len(),
            out.len() == i,
            forall|k: int| 0 <= k < i ==> (#[trigger] out@[k])@ == normalized_extension(raw@[k]@),
        decreases raw.len() - i,
    {
        out.push(normalize_extension(raw[i].as_str()));
        i = i + 1;
    }
    assert(texts(out@) =~= normalized_extensions(texts(raw@)));
    out
}

/// Whether `key` is the text of one of the strings in `list`.
pub fn contains_text(list: &Vec<String>, key: &String) -> (found: bool)
    ensures
        found == texts(list@).contains(key@),
{
    let mut i: usize = 0;
    while i < list.len()
        invariant
            i <= list.len(),
            forall|k: int| 0 <= k < i ==> (#[trigger] list@[k])@ != key@,
        decreases list.len() - i,
    {
        if list[i] == *key {
            assert(texts(list@)[i as int] == key@);
            return true;
        }
        i = i + 1;
    }
    assert forall|k: int| 0 <= k < texts(list@).len() implies texts(list@)[k] != key@ by {
        assert(texts(list@)[k] == list@[k]@);
    }
    false
}

} // verus!
