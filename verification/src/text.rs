//! Character and string helpers the editor logic is built on: case
//! folding at the Unicode boundary, lexicographic comparison, substring
//! search, decimal formatting and parsing.

use vstd::prelude::*;

verus! {

use vstd::string::StringExecFns;
use vstd::string::StrSliceExecFns;

/// The Unicode lowercase folding of a character sequence, as
/// `str::to_lowercase` computes it; a function of the characters alone.
pub uninterp spec fn lowercase_of(s: Seq<char>) -> Seq<char>;

/// The Unicode uppercase expansion of one character, as
/// `char::to_uppercase` computes it; a function of the character alone.
pub uninterp spec fn uppercase_of(c: char) -> Seq<char>;

/// Relies on str::to_lowercase: the result depends on the characters
/// alone, and an empty string folds to an empty string.
#[verifier::external_body]
pub fn to_lowercase(s: &str) -> (r: String)
    ensures
        r@ == lowercase_of(s@),
        s@.len() == 0 ==> r@.len() == 0,
{
    s.to_lowercase()
}

/// Relies on char::to_uppercase: the resulting characters depend on the
/// input character alone.
#[verifier::external_body]
pub fn char_to_uppercase(c: char) -> (r: String)
    ensures
        r@ == uppercase_of(c),
{
    c.to_uppercase().collect::<String>()
}

/// Lexicographic order of two character sequences by code point, which for
/// Rust strings agrees with the byte-wise order of their UTF-8 encodings.
pub open spec fn lex_cmp(a: Seq<char>, b: Seq<char>) -> core::cmp::Ordering
    decreases a.len(),
{
    if a.len() == 0 && b.len() == 0 {
        core::cmp::Ordering::Equal
    } else if a.len() == 0 {
        core::cmp::Ordering::Less
    } else if b.len() == 0 {
        core::cmp::Ordering::Greater
    } else if (a[0] as u32) < (b[0] as u32) {
        core::cmp::Ordering::Less
    } else if (a[0] as u32) > (b[0] as u32) {
        core::cmp::Ordering::Greater
    } else {
        lex_cmp(a.drop_first(), b.drop_first())
    }
}

/// Flipping the arguments of `lex_cmp` flips its answer.
pub proof fn lemma_lex_cmp_flip(a: Seq<char>, b: Seq<char>)
    ensures
        lex_cmp(a, b) == core::cmp::Ordering::Less <==> lex_cmp(b, a)
            == core::cmp::Ordering::Greater,
        lex_cmp(a, b) == core::cmp::Ordering::Equal <==> lex_cmp(b, a)
            == core::cmp::Ordering::Equal,
    decreases a.len(),
{
    if a.len() > 0 && b.len() > 0 && (a[0] as u32) == (b[0] as u32) {
        lemma_lex_cmp_flip(a.drop_first(), b.drop_first());
    }
}

/// `lex_cmp` is transitive over "less than or equivalent".
pub proof fn lemma_lex_cmp_trans(a: Seq<char>, b: Seq<char>, c: Seq<char>)
    requires
        lex_cmp(a, b) != core::cmp::Ordering::Greater,
        lex_cmp(b, c) != core::cmp::Ordering::Greater,
    ensures
        lex_cmp(a, c) != core::cmp::Ordering::Greater,
        lex_cmp(a, b) == core::cmp::Ordering::Equal && lex_cmp(b, c) == core::cmp::Ordering::Equal
            ==> lex_cmp(a, c) == core::cmp::Ordering::Equal,
    decreases a.len() + b.len() + c.len(),
{
    if a.len() > 0 && b.len() > 0 && c.len() > 0 {
        if (a[0] as u32) == (b[0] as u32) && (b[0] as u32) == (c[0] as u32) {
            lemma_lex_cmp_trans(a.drop_first(), b.drop_first(), c.drop_first());
        }
    }
}

/// Compare two strings lexicographically by code point.
pub fn str_lex_cmp(a: &str, b: &str) -> (r: core::cmp::Ordering)
    ensures
        r == lex_cmp(a@, b@),
{
    let a_len = a.unicode_len();
    let b_len = b.unicode_len();
    let mut i: usize = 0;
    proof {
        assert(a@.skip(0) =~= a@);
        assert(b@.skip(0) =~= b@);
    }
    loop
        invariant
            i <= a_len,
            i <= b_len,
            a_len == a@.len(),
            b_len == b@.len(),
            lex_cmp(a@, b@) == lex_cmp(a@.skip(i as int), b@.skip(i as int)),
        decreases a_len - i,
    {
        if i >= a_len || i >= b_len {
            proof {
                if i >= a_len {
                    assert(a@.skip(i as int).len() == 0);
                } else {
                    assert(b@.skip(i as int).len() == 0);
                    assert(a@.skip(i as int).len() > 0);
                }
            }
            if a_len == b_len {
                return core::cmp::Ordering::Equal;
            } else if a_len < b_len {
                return core::cmp::Ordering::Less;
            } else {
                return core::cmp::Ordering::Greater;
            }
        }
        let ca = a.get_char(i);
        let cb = b.get_char(i);
        proof {
            assert(a@.skip(i as int)[0] == a@[i as int]);
            assert(b@.skip(i as int)[0] == b@[i as int]);
            assert(a@.skip(i as int).drop_first() =~= a@.skip(i as int + 1));
            assert(b@.skip(i as int).drop_first() =~= b@.skip(i as int + 1));
        }
        if (ca as u32) < (cb as u32) {
            return core::cmp::Ordering::Less;
        } else if (ca as u32) > (cb as u32) {
            return core::cmp::Ordering::Greater;
        }
        i += 1;
    }
}

/// Whether `needle` occurs as a contiguous run anywhere inside `hay`.
pub open spec fn spec_contains(hay: Seq<char>, needle: Seq<char>) -> bool {
    exists|i: int|
        0 <= i <= hay.len() - needle.len() && #[trigger] hay.subrange(i, i + needle.len())
            == needle
}

/// Substring search: whether `needle`'s characters occur contiguously in
/// `hay`. The empty needle is found everywhere.
pub fn str_contains(hay: &str, needle: &str) -> (r: bool)
    ensures
        r == spec_contains(hay@, needle@),
{
    let hay_len = hay.unicode_len();
    let needle_len = needle.unicode_len();
    if needle_len > hay_len {
        return false;
    }
    let mut i: usize = 0;
    while i <= hay_len - needle_len
        invariant
            needle_len <= hay_len,
            hay_len == hay@.len(),
            needle_len == needle@.len(),
            i <= hay_len - needle_len + 1,
            forall|j: int|
                0 <= j < i ==> #[trigger] hay@.subrange(j, j + needle@.len()) != needle@,
        decreases hay_len - i,
    {
        let mut k: usize = 0;
        let mut matched = true;
        while matched && k < needle_len
            invariant
                needle_len <= hay_len,
                hay_len == hay@.len(),
                needle_len == needle@.len(),
                i + needle_len <= hay_len,
                k <= needle_len,
                matched ==> forall|j: int| 0 <= j < k ==> hay@[i + j] == needle@[j],
                !matched ==> exists|j: int| 0 <= j < needle@.len() && hay@[i + j] != needle@[j],
            decreases needle_len - k + (if matched {
                1int
            } else {
                0int
            }),
        {
            let hc = hay.get_char(i + k);
            let nc = needle.get_char(k);
            if hc != nc {
                matched = false;
            } else {
                k += 1;
            }
        }
        if matched {
            proof {
                assert(hay@.subrange(i as int, i + needle@.len()) =~= needle@);
            }
            return true;
        }
        proof {
            let j = choose|j: int| 0 <= j < needle@.len() && hay@[i + j] != needle@[j];
            assert(hay@.subrange(i as int, i + needle@.len())[j] == hay@[i + j]);
        }
        i += 1;
    }
    false
}

/// The character that writes a decimal digit.
pub open spec fn digit_char(d: int) -> char {
    if d == 0 {
        '0'
    } else if d == 1 {
        '1'
    } else if d == 2 {
        '2'
    } else if d == 3 {
        '3'
    } else if d == 4 {
        '4'
    } else if d == 5 {
        '5'
    } else if d == 6 {
        '6'
    } else if d == 7 {
        '7'
    } else if d == 8 {
        '8'
    } else {
        '9'
    }
}

/// The decimal notation of a nonnegative integer.
pub open spec fn dec_str(n: int) -> Seq<char>
    decreases n,
{
    if n < 10 {
        seq![digit_char(n)]
    } else {
        dec_str(n / 10) + seq![digit_char(n % 10)]
    }
}

/// The digit below ten, written as a borrowed one-character string.
pub fn digit_str(d: u64) -> (r: &'static str)
    requires
        d < 10,
    ensures
        r@ =~= seq![digit_char(d as int)],
{
    proof {
        reveal_strlit("0");
        reveal_strlit("1");
        reveal_strlit("2");
        reveal_strlit("3");
        reveal_strlit("4");
        reveal_strlit("5");
        reveal_strlit("6");
        reveal_strlit("7");
        reveal_strlit("8");
        reveal_strlit("9");
    }
    if d == 0 {
        "0"
    } else if d == 1 {
        "1"
    } else if d == 2 {
        "2"
    } else if d == 3 {
        "3"
    } else if d == 4 {
        "4"
    } else if d == 5 {
        "5"
    } else if d == 6 {
        "6"
    } else if d == 7 {
        "7"
    } else if d == 8 {
        "8"
    } else {
        "9"
    }
}

/// Write a number in decimal.
pub fn u64_to_decimal(n: u64) -> (r: String)
    ensures
        r@ == dec_str(n as int),
    decreases n,
{
    if n < 10 {
        digit_str(n).to_owned()
    } else {
        let mut s = u64_to_decimal(n / 10);
        s.append(digit_str(n % 10));
        s
    }
}

/// Whether a character is a decimal digit.
pub open spec fn is_digit(c: char) -> bool {
    48 <= (c as u32) <= 57
}

/// The numeric value of a digit character.
pub open spec fn digit_val(c: char) -> int {
    (c as u32) - 48
}

/// The value of a digit run, most significant first.
pub open spec fn digits_val(s: Seq<char>) -> int
    decreases s.len(),
{
    if s.len() == 0 {
        0
    } else {
        digits_val(s.drop_last()) * 10 + digit_val(s.last())
    }
}

/// A numeral with its optional leading plus sign stripped.
pub open spec fn parse_body(s: Seq<char>) -> Seq<char> {
    if s.len() > 0 && s[0] == '+' {
        s.drop_first()
    } else {
        s
    }
}

/// What `str::parse::<usize>` accepts of a trimmed numeral: an optional
/// leading plus sign, then at least one digit, valuing at most the largest
/// machine word.
pub open spec fn spec_parse_usize(s: Seq<char>) -> Option<int> {
    if parse_body(s).len() > 0 && (forall|i: int|
        0 <= i < parse_body(s).len() ==> is_digit(#[trigger] parse_body(s)[i])) && digits_val(
        parse_body(s),
    ) <= usize::MAX {
        Option::Some(digits_val(parse_body(s)))
    } else {
        Option::None
    }
}

proof fn lemma_digits_val_nonneg(s: Seq<char>)
    requires
        forall|i: int| 0 <= i < s.len() ==> is_digit(#[trigger] s[i]),
    ensures
        digits_val(s) >= 0,
    decreases s.len(),
{
    if s.len() > 0 {
        assert(forall|i: int|
            0 <= i < s.drop_last().len() ==> is_digit(#[trigger] s.drop_last()[i]));
        lemma_digits_val_nonneg(s.drop_last());
    }
}

proof fn lemma_digits_val_prefix_grows(s: Seq<char>, k: int)
    requires
        0 <= k <= s.len(),
        forall|i: int| 0 <= i < s.len() ==> is_digit(#[trigger] s[i]),
    ensures
        digits_val(s.take(k)) <= digits_val(s),
    decreases s.len() - k,
{
    if k == s.len() {
        assert(s.take(k) =~= s);
    } else {
        lemma_digits_val_prefix_grows(s, k + 1);
        let t = s.take(k + 1);
        assert(t.drop_last() =~= s.take(k));
        assert(forall|i: int| 0 <= i < t.len() ==> is_digit(#[trigger] t[i]));
        lemma_digits_val_nonneg(s.take(k));
        assert(digits_val(t) == digits_val(s.take(k)) * 10 + digit_val(t.last()));
    }
}

/// Parse a run of characters as `str::parse::<usize>` would: an optional
/// leading plus, then digits, rejecting anything else and any value that
/// does not fit the machine word.
pub fn parse_usize_chars(s: &str) -> (r: Option<usize>)
    ensures
        match spec_parse_usize(s@) {
            Option::Some(v) => 0 <= v <= usize::MAX && r == Some(v as usize),
            Option::None => r is None,
        },
{
    let len = s.unicode_len();
    let start: usize = if len > 0 && s.get_char(0) == '+' {
        1
    } else {
        0
    };
    let ghost body = parse_body(s@);
    proof {
        assert(body =~= s@.skip(start as int));
    }
    if len == start {
        return Option::None;
    }
    let mut acc: usize = 0;
    let mut i: usize = start;
    while i < len
        invariant
            start <= i <= len,
            len == s@.len(),
            start < len,
            body == parse_body(s@),
            body == s@.skip(start as int),
            forall|j: int| 0 <= j < i - start ==> is_digit(#[trigger] parse_body(s@)[j]),
            acc == digits_val(body.take(i - start)),
        decreases len - i,
    {
        let c = s.get_char(i);
        let cu = c as u32;
        if cu < 48 || cu > 57 {
            proof {
                assert(parse_body(s@)[i - start] == s@[i as int]);
                assert(!is_digit(parse_body(s@)[i - start]));
            }
            return Option::None;
        }
        let d = (cu - 48) as usize;
        proof {
            assert(body.take(i - start + 1).drop_last() =~= body.take(i - start));
            assert(body.take(i - start + 1).last() == s@[i as int]);
        }
        let next = match acc.checked_mul(10) {
            Option::Some(m) => m.checked_add(d),
            Option::None => Option::None,
        };
        match next {
            Option::Some(v) => {
                acc = v;
            },
            Option::None => {
                // The prefix already exceeds the machine word, and more
                // digits can only grow the value.
                proof {
                    let k = i - start + 1;
                    assert(digits_val(body.take(k)) > usize::MAX);
                    if forall|j: int| 0 <= j < body.len() ==> is_digit(#[trigger] body[j]) {
                        lemma_digits_val_prefix_grows(body, k);
                    }
                }
                return Option::None;
            },
        }
        i += 1;
    }
    proof {
        assert(body.take(len - start) =~= body);
        assert(forall|j: int| 0 <= j < body.len() ==> is_digit(#[trigger] parse_body(s@)[j]));
    }
    Option::Some(acc)
}


/// Whether a character has the Unicode White_Space property, the set
/// `str::trim` strips from the ends of user input.
pub open spec fn is_spacing(c: char) -> bool {
    let u = c as u32;
    (0x9 <= u <= 0xD) || u == 0x20 || u == 0x85 || u == 0xA0 || u == 0x1680 || (0x2000 <= u
        <= 0x200A) || u == 0x2028 || u == 0x2029 || u == 0x202F || u == 0x205F || u == 0x3000
}

/// The run with leading whitespace dropped.
pub open spec fn trim_front(s: Seq<char>) -> Seq<char>
    decreases s.len(),
{
    if s.len() > 0 && is_spacing(s[0]) {
        trim_front(s.drop_first())
    } else {
        s
    }
}

/// The run with trailing whitespace dropped.
pub open spec fn trim_back(s: Seq<char>) -> Seq<char>
    decreases s.len(),
{
    if s.len() > 0 && is_spacing(s.last()) {
        trim_back(s.drop_last())
    } else {
        s
    }
}

/// The run with whitespace dropped from both ends.
pub open spec fn spec_trim(s: Seq<char>) -> Seq<char> {
    trim_back(trim_front(s))
}

/// Whether a character is trimmed from the ends of user input.
fn char_is_spacing(c: char) -> (r: bool)
    ensures
        r == is_spacing(c),
{
    let u = c as u32;
    (0x9 <= u && u <= 0xD) || u == 0x20 || u == 0x85 || u == 0xA0 || u == 0x1680 || (0x2000 <= u
        && u <= 0x200A) || u == 0x2028 || u == 0x2029 || u == 0x202F || u == 0x205F || u == 0x3000
}

/// Drop Unicode whitespace from both ends.
pub fn trim_spaces(s: &str) -> (r: &str)
    ensures
        r@ == spec_trim(s@),
{
    let len = s.unicode_len();
    let mut a: usize = 0;
    proof {
        assert(s@.skip(0) =~= s@);
    }
    while a < len && char_is_spacing(s.get_char(a))
        invariant
            a <= len,
            len == s@.len(),
            trim_front(s@) == trim_front(s@.skip(a as int)),
        decreases len - a,
    {
        proof {
            assert(s@.skip(a as int)[0] == s@[a as int]);
            assert(s@.skip(a as int).drop_first() =~= s@.skip(a + 1));
        }
        a += 1;
    }
    proof {
        if a < len {
            assert(s@.skip(a as int)[0] == s@[a as int]);
        }
        assert(trim_front(s@) == s@.skip(a as int));
    }
    let ghost t = s@.skip(a as int);
    let mut b: usize = len;
    proof {
        assert(t.take(b - a) =~= t);
    }
    while b > a && char_is_spacing(s.get_char(b - 1))
        invariant
            a <= b <= len,
            len == s@.len(),
            t == s@.skip(a as int),
            trim_back(t) == trim_back(t.take(b - a)),
        decreases b,
    {
        proof {
            assert(t.take(b - a).last() == s@[b - 1]);
            assert(t.take(b - a).drop_last() =~= t.take(b - 1 - a));
        }
        b -= 1;
    }
    proof {
        if b > a {
            assert(t.take(b - a).last() == s@[b - 1]);
            assert(trim_back(t.take(b - a)) == t.take(b - a));
        } else {
            assert(t.take(0).len() == 0);
        }
        assert(spec_trim(s@) == t.take(b - a));
        assert(t.take(b - a) =~= s@.subrange(a as int, b as int));
    }
    s.substring_char(a, b)
}

} // verus!
