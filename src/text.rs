use vstd::prelude::*;

verus! {

/// Relies on String::push_str: appends the characters of `t` to `s`.
#[verifier::external_body]
pub(crate) fn append_str(s: &mut String, t: &str)
    ensures
        final(s)@ == old(s)@ + t@,
{
    s.push_str(t)
}

/// Relies on String::push: appends one character to `s`.
#[verifier::external_body]
pub(crate) fn append_char(s: &mut String, c: char)
    ensures
        final(s)@ == old(s)@.push(c),
{
    s.push(c)
}

/// Character-wise equality of two strings.
pub fn str_equals(a: &str, b: &str) -> (r: bool)
    ensures
        r == (a@ == b@),
{
    let n = a.unicode_len();
    if n != b.unicode_len() {
        return false;
    }
    let mut i: usize = 0;
    while i < n
        invariant
            n == a@.len(),
            n == b@.len(),
            i <= n,
            a@.subrange(0, i as int) == b@.subrange(0, i as int),
        decreases n - i,
    {
        if a.get_char(i) != b.get_char(i) {
            return false;
        }
        assert(a@.subrange(0, i + 1) == a@.subrange(0, i as int).push(a@[i as int]));
        assert(b@.subrange(0, i + 1) == b@.subrange(0, i as int).push(b@[i as int]));
        i = i + 1;
    }
    assert(a@ == a@.subrange(0, n as int));
    assert(b@ == b@.subrange(0, n as int));
    true
}

/// A string in double quotes.
pub open spec fn quoted(s: Seq<char>) -> Seq<char> {
    seq!['"'] + s + seq!['"']
}

/// The quoted items, separated by commas.
pub open spec fn quoted_list(items: Seq<Seq<char>>) -> Seq<char>
    decreases items.len(),
{
    if items.len() == 0 {
        Seq::empty()
    } else if items.len() == 1 {
        quoted(items[0])
    } else {
        quoted_list(items.drop_last()) + seq![','] + quoted(items.last())
    }
}

/// The list value that the service takes in a query parameter: a JSON array
/// of strings, such as `["a","b"]`.
pub open spec fn url_array(items: Seq<Seq<char>>) -> Seq<char> {
    seq!['['] + quoted_list(items) + seq![']']
}

/// The views of a sequence of strings.
pub open spec fn string_views(items: Seq<String>) -> Seq<Seq<char>> {
    items.map_values(|s: String| s@)
}

/// Writes a list of strings as the service's list value.
pub fn to_url_array(items: &[String]) -> (r: String)
    ensures
        r@ == url_array(string_views(items@)),
{
    let mut out = String::new();
    append_char(&mut out, '[');
    let mut i: usize = 0;
    while i < items.len()
        invariant
            i <= items@.len(),
            out@ == seq!['['] + quoted_list(string_views(items@.subrange(0, i as int))),
        decreases items@.len() - i,
    {
        let ghost before = out@;
        if i > 0 {
            append_char(&mut out, ',');
        }
        append_char(&mut out, '"');
        append_str(&mut out, items[i].as_str());
        append_char(&mut out, '"');
        proof {
            let done = string_views(items@.subrange(0, i as int));
            let next = string_views(items@.subrange(0, i + 1));
            assert(next.drop_last() == done);
            assert(next.last() == items@[i as int]@);
            if i == 0 {
                assert(done.len() == 0);
                assert(out@ == seq!['['] + quoted(next.last()));
            } else {
                assert(out@ == before + seq![','] + quoted(next.last()));
            }
            assert(out@ == seq!['['] + quoted_list(next));
        }
        i = i + 1;
    }
    append_char(&mut out, ']');
    assert(items@.subrange(0, i as int) == items@);
    out
}

} // verus!
