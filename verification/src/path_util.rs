//! Path helpers over plain strings, following Unix path conventions:
//! the parent of an absolute path, and the extension of a bare file name.

use vstd::prelude::*;

verus! {

use vstd::string::StrSliceExecFns;
use vstd::string::StringExecFns;

/// Rightmost position of `c` at or before `from`.
pub open spec fn rfind(s: Seq<char>, c: char, from: int) -> Option<int>
    decreases from + 1,
{
    if from < 0 || from >= s.len() {
        Option::None
    } else if s[from] == c {
        Option::Some(from)
    } else {
        rfind(s, c, from - 1)
    }
}

/// A path with its trailing slashes dropped; a lone slash is kept.
pub open spec fn strip_trailing_slashes(s: Seq<char>) -> Seq<char>
    decreases s.len(),
{
    if s.len() > 1 && s.last() == '/' {
        strip_trailing_slashes(s.drop_last())
    } else {
        s
    }
}

/// The parent of a path: none for the root or an empty path, the empty
/// path for a bare name, the root for a first-level entry, and otherwise
/// everything before the last separator.
pub open spec fn spec_parent_of(s: Seq<char>) -> Option<Seq<char>> {
    let t = strip_trailing_slashes(s);
    if t.len() == 0 || t == seq!['/'] {
        Option::None
    } else {
        match rfind(t, '/', t.len() - 1) {
            Option::None => Option::Some(Seq::empty()),
            Option::Some(i) => {
                if i == 0 {
                    Option::Some(seq!['/'])
                } else {
                    Option::Some(t.take(i))
                }
            },
        }
    }
}

/// The parent directory of a path, by Unix conventions.
pub fn parent_of(s: &str) -> (r: Option<String>)
    ensures
        match spec_parent_of(s@) {
            Option::None => r is None,
            Option::Some(p) => r matches Some(q) && q@ == p,
        },
{
    let mut len = s.unicode_len();
    proof {
        assert(s@.take(len as int) =~= s@);
    }
    // Drop trailing separators, keeping a lone root slash.
    while len > 1 && s.get_char(len - 1) == '/'
        invariant
            len <= s@.len(),
            strip_trailing_slashes(s@) == strip_trailing_slashes(s@.take(len as int)),
        decreases len,
    {
        proof {
            assert(s@.take(len as int).last() == s@[len - 1]);
            assert(s@.take(len as int).drop_last() =~= s@.take(len - 1));
        }
        len -= 1;
    }
    let ghost t = strip_trailing_slashes(s@);
    proof {
        assert(strip_trailing_slashes(s@.take(len as int)) == s@.take(len as int));
        assert(t =~= s@.take(len as int));
    }
    if len == 0 {
        return Option::None;
    }
    if len == 1 && s.get_char(0) == '/' {
        proof {
            assert(t =~= seq!['/']);
        }
        return Option::None;
    }
    proof {
        assert(t != seq!['/']) by {
            if t == seq!['/'] {
                assert(s@[0] == '/');
            }
        }
    }
    // Search for the last separator of the stripped path.
    let mut i: usize = len;
    while i > 0
        invariant
            i <= len,
            0 < len <= s@.len(),
            t == s@.take(len as int),
            t == strip_trailing_slashes(s@),
            t != seq!['/'],
            rfind(t, '/', t.len() - 1) == rfind(t, '/', i - 1),
        decreases i,
    {
        let c = s.get_char(i - 1);
        proof {
            assert(t[i - 1] == s@[i - 1]);
        }
        if c == '/' {
            proof {
                assert(rfind(t, '/', i - 1) == Some(i - 1));
            }
            if i - 1 == 0 {
                proof {
                    reveal_strlit("/");
                    assert("/"@ =~= seq!['/']);
                }
                return Option::Some(String::from_str("/"));
            }
            let p = s.substring_char(0, i - 1);
            proof {
                assert(t.take(i - 1) =~= s@.subrange(0, i - 1));
            }
            return Option::Some(p.to_owned());
        }
        i -= 1;
    }
    proof {
        assert(rfind(t, '/', -1) is None);
    }
    Option::Some(String::new())
}

/// The extension of a bare file name: the run after the last dot, empty
/// when there is no dot or when the only dot leads a hidden file's name.
pub open spec fn spec_extension_of(name: Seq<char>) -> Seq<char> {
    match rfind(name, '.', name.len() - 1) {
        Option::None => Seq::empty(),
        Option::Some(i) => {
            if i == 0 {
                Seq::empty()
            } else {
                name.skip(i + 1)
            }
        },
    }
}

/// The extension of a bare file name, empty when it has none.
pub fn extension_of(name: &str) -> (r: String)
    ensures
        r@ == spec_extension_of(name@),
{
    let len = name.unicode_len();
    let mut i: usize = len;
    while i > 0
        invariant
            i <= len,
            len == name@.len(),
            rfind(name@, '.', name@.len() - 1) == rfind(name@, '.', i - 1),
        decreases i,
    {
        let c = name.get_char(i - 1);
        if c == '.' {
            proof {
                assert(name@[i - 1] == '.');
                assert(rfind(name@, '.', i - 1) == Some(i - 1));
            }
            if i - 1 == 0 {
                return String::new();
            }
            let e = name.substring_char(i, len);
            proof {
                assert(name@.skip(i as int) =~= name@.subrange(i as int, len as int));
            }
            return e.to_owned();
        }
        i -= 1;
    }
    proof {
        assert(rfind(name@, '.', -1) is None);
    }
    String::new()
}

} // verus!
