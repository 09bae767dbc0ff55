//! Naming helper for the settings tree: setting and category names are
//! derived from snake_case schema property names. The schema itself is
//! JSON read by the application shell; only the naming rule lives here.

use vstd::prelude::*;

use crate::text::{char_to_uppercase, uppercase_of};

verus! {

use vstd::string::StrSliceExecFns;
use vstd::string::StringExecFns;

/// Leftmost position of `c` at or after `from`.
pub open spec fn find_from(s: Seq<char>, c: char, from: int) -> Option<int>
    decreases s.len() - from,
{
    if from < 0 || from >= s.len() {
        Option::None
    } else if s[from] == c {
        Option::Some(from)
    } else {
        find_from(s, c, from + 1)
    }
}

/// A word with its first character uppercased.
pub open spec fn capitalized(w: Seq<char>) -> Seq<char> {
    if w.len() == 0 {
        Seq::empty()
    } else {
        uppercase_of(w[0]) + w.drop_first()
    }
}

/// The humanized run from `from` on: underscore-separated words, each
/// capitalized, joined by single spaces.
pub open spec fn spec_humanized_from(s: Seq<char>, from: int) -> Seq<char>
    decreases s.len() - from,
{
    match find_from(s, '_', from) {
        Option::None => capitalized(s.skip(from)),
        Option::Some(i) => {
            if from <= i < s.len() {
                capitalized(s.subrange(from, i)) + " "@ + spec_humanized_from(s, i + 1)
            } else {
                capitalized(s.skip(from))
            }
        },
    }
}

/// A snake_case name written as a title: words split on underscores, each
/// with its first character uppercased, joined by spaces.
pub open spec fn spec_humanized(s: Seq<char>) -> Seq<char> {
    spec_humanized_from(s, 0)
}

/// Position of the next underscore at or after `from`, if any.
fn find_underscore(name: &str, from: usize) -> (r: Option<usize>)
    requires
        from <= name@.len(),
    ensures
        match find_from(name@, '_', from as int) {
            Option::Some(i) => from <= i < name@.len() && name@[i] == '_' && r == Some(i as usize),
            Option::None => r is None,
        },
{
    let len = name.unicode_len();
    let mut i: usize = from;
    while i < len
        invariant
            from <= i <= len,
            len == name@.len(),
            find_from(name@, '_', from as int) == find_from(name@, '_', i as int),
        decreases len - i,
    {
        if name.get_char(i) == '_' {
            proof {
                assert(find_from(name@, '_', i as int) == Some(i as int));
            }
            return Option::Some(i);
        }
        i += 1;
    }
    proof {
        assert(find_from(name@, '_', i as int) is None);
    }
    Option::None
}

/// Append the word `s[start..end]`, capitalized, to `out`.
fn push_capitalized(out: &mut String, s: &str, start: usize, end: usize)
    requires
        start <= end,
        end <= s@.len(),
    ensures
        final(out)@ == old(out)@ + capitalized(s@.subrange(start as int, end as int)),
{
    if start == end {
        proof {
            assert(old(out)@ + capitalized(s@.subrange(start as int, end as int)) =~= old(out)@);
        }
        return ;
    }
    let first = s.get_char(start);
    let upper = char_to_uppercase(first);
    out.append(upper.as_str());
    let rest = s.substring_char(start + 1, end);
    out.append(rest);
    proof {
        assert(s@.subrange(start as int, end as int).drop_first() =~= s@.subrange(
            start as int + 1,
            end as int,
        ));
        assert(s@.subrange(start as int, end as int)[0] == s@[start as int]);
        assert(out@ =~= old(out)@ + capitalized(s@.subrange(start as int, end as int)));
    }
}

/// Convert a snake_case name to Title Case: each underscore-separated word
/// gets its first character uppercased, and the words are joined with
/// spaces.
pub fn humanize_name(name: &str) -> (r: String)
    ensures
        r@ == spec_humanized(name@),
{
    let len = name.unicode_len();
    let mut out = String::new();
    let mut from: usize = 0;
    loop
        invariant
            from <= len,
            len == name@.len(),
            spec_humanized(name@) == out@ + spec_humanized_from(name@, from as int),
        decreases len - from,
    {
        match find_underscore(name, from) {
            Option::Some(i) => {
                let ghost pre = out@;
                push_capitalized(&mut out, name, from, i);
                out.append(" ");
                proof {
                    assert(out@ =~= pre + (capitalized(
                        name@.subrange(from as int, i as int),
                    ) + " "@));
                    assert(pre + spec_humanized_from(name@, from as int) =~= out@
                        + spec_humanized_from(name@, i + 1));
                }
                from = i + 1;
            },
            Option::None => {
                let ghost pre = out@;
                push_capitalized(&mut out, name, from, len);
                proof {
                    assert(name@.skip(from as int) =~= name@.subrange(from as int, len as int));
                    assert(out@ =~= pre + spec_humanized_from(name@, from as int));
                }
                return out;
            },
        }
    }
}

} // verus!
