//! Text templates: a text in which `{key}` stands for the value of `key`.

use crate::dict::FieldDict;
use vstd::prelude::*;
use vstd::string::StringExecFns;

verus! {

/// A text in which every occurrence of a pattern is replaced, the leftmost
/// first and none overlapping another. The empty pattern replaces nothing.
pub open spec fn replaced(text: Seq<char>, pattern: Seq<char>, with: Seq<char>) -> Seq<char>
    decreases text.len(),
{
    if pattern.len() == 0 || text.len() < pattern.len() {
        text
    } else if pattern.is_prefix_of(text) {
        with + replaced(text.skip(pattern.len() as int), pattern, with)
    } else {
        seq![text[0]] + replaced(text.skip(1), pattern, with)
    }
}

/// The placeholder of a key: the key in braces.
pub open spec fn placeholder(key: Seq<char>) -> Seq<char> {
    seq!['{'] + key + seq!['}']
}

/// A template in which the placeholders of the first `n` entries are
/// replaced by their values, one entry after the other.
pub open spec fn filled(template: Seq<char>, entries: Seq<(Seq<char>, Seq<char>)>, n: nat) -> Seq<
    char,
>
    decreases n,
{
    if n == 0 {
        template
    } else {
        replaced(
            filled(template, entries, (n - 1) as nat),
            placeholder(entries[n - 1].0),
            entries[n - 1].1,
        )
    }
}

fn matches_at(text: &str, at: usize, pattern: &str) -> (r: bool)
    requires
        at + pattern@.len() <= text@.len(),
    ensures
        r == pattern@.is_prefix_of(text@.skip(at as int)),
{
    let n: usize = text.unicode_len();
    let m: usize = pattern.unicode_len();
    let mut j: usize = 0;
    while j < m
        invariant
            j <= m,
            m == pattern@.len(),
            n == text@.len(),
            at + m <= n,
            forall|k: int| 0 <= k < j ==> pattern@[k] == text@[at + k],
        decreases m - j,
    {
        if pattern.get_char(j) != text.get_char(at + j) {
            assert(text@.skip(at as int).subrange(0, m as int)[j as int] == text@[at + j]);
            return false;
        }
        j += 1;
    }
    assert(pattern@ =~= text@.skip(at as int).subrange(0, m as int));
    true
}

/// Replaces every occurrence of a pattern in a text, the leftmost first.
pub fn replace_all(text: &str, pattern: &str, with: &str) -> (out: String)
    ensures
        out@ == replaced(text@, pattern@, with@),
{
    let n: usize = text.unicode_len();
    let m: usize = pattern.unicode_len();
    if m == 0 {
        return String::from_str(text);
    }
    let mut out = String::new();
    let mut i: usize = 0;
    assert(text@.skip(0) =~= text@);
    while i < n
        invariant
            i <= n,
            n == text@.len(),
            m == pattern@.len(),
            m > 0,
            out@ + replaced(text@.skip(i as int), pattern@, with@) == replaced(
                text@,
                pattern@,
                with@,
            ),
        decreases n - i,
    {
        let ghost rest = text@.skip(i as int);
        let ghost before = out@;
        if m <= n - i && matches_at(text, i, pattern) {
            out.append(with);
            assert(rest.skip(m as int) =~= text@.skip(i + m));
            assert(before + (with@ + replaced(rest.skip(m as int), pattern@, with@)) =~= (before
                + with@) + replaced(rest.skip(m as int), pattern@, with@));
            i += m;
        } else if m <= n - i {
            out.append(text.substring_char(i, i + 1));
            assert(text@.subrange(i as int, i + 1) =~= seq![rest[0]]);
            assert(rest.skip(1) =~= text@.skip(i + 1));
            assert(before + (seq![rest[0]] + replaced(rest.skip(1), pattern@, with@)) =~= (before
                + seq![rest[0]]) + replaced(rest.skip(1), pattern@, with@));
            i += 1;
        } else {
            out.append(text.substring_char(i, n));
            assert(text@.subrange(i as int, n as int) =~= rest);
            assert(text@.skip(n as int) =~= Seq::<char>::empty());
            assert(before + rest =~= (before + rest) + Seq::<char>::empty());
            i = n;
        }
    }
    assert(text@.skip(n as int) =~= Seq::<char>::empty());
    assert(out@ + Seq::<char>::empty() =~= out@);
    out
}

/// Fills a template: for each entry of the data in turn, every `{key}` in
/// the text is replaced by the value of the key.
pub fn fill_template(template: String, data: FieldDict) -> (result: String)
    ensures
        result@ == filled(template@, data@, data@.len()),
{
    let mut result = template;
    let n: usize = data.len();
    let mut i: usize = 0;
    while i < n
        invariant
            i <= n,
            n == data@.len(),
            result@ == filled(template@, data@, i as nat),
        decreases n - i,
    {
        match data.entry(i) {
            Some(entry) => {
                let mut pattern = String::from_str("{");
                pattern.append(entry.key.as_str());
                pattern.append("}");
                proof {
                    reveal_strlit("{");
                    reveal_strlit("}");
                    assert(pattern@ =~= placeholder(data@[i as int].0));
                }
                result = replace_all(result.as_str(), pattern.as_str(), entry.value.as_str());
            },
            None => {},
        }
        i += 1;
    }
    result
}

} // verus!
