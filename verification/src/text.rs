use vstd::prelude::*;
use vstd::string::StrSliceExecFns;

verus! {

broadcast use vstd::string::group_string_axioms;

/// Unicode `White_Space`, the set that `char::is_whitespace` tests.
pub open spec fn spec_is_whitespace(c: char) -> bool {
    let u = c as int;
    ||| 0x09 <= u <= 0x0D
    ||| u == 0x20
    ||| u == 0x85
    ||| u == 0xA0
    ||| u == 0x1680
    ||| 0x2000 <= u <= 0x200A
    ||| u == 0x2028
    ||| u == 0x2029
    ||| u == 0x202F
    ||| u == 0x205F
    ||| u == 0x3000
}

/// `s` without its leading whitespace.
pub open spec fn spec_trim_start(s: Seq<char>) -> Seq<char>
    decreases s.len(),
{
    if s.len() > 0 && spec_is_whitespace(s[0]) {
        spec_trim_start(s.drop_first())
    } else {
        s
    }
}

/// `s` without its trailing whitespace.
pub open spec fn spec_trim_end(s: Seq<char>) -> Seq<char>
    decreases s.len(),
{
    if s.len() > 0 && spec_is_whitespace(s.last()) {
        spec_trim_end(s.drop_last())
    } else {
        s
    }
}

/// `s` without leading and trailing whitespace.
pub open spec fn spec_trim(s: Seq<char>) -> Seq<char> {
    spec_trim_end(spec_trim_start(s))
}

/// `s` without the trailing run of `c`.
pub open spec fn spec_trim_end_char(s: Seq<char>, c: char) -> Seq<char>
    decreases s.len(),
{
    if s.len() > 0 && s.last() == c {
        spec_trim_end_char(s.drop_last(), c)
    } else {
        s
    }
}

/// Whether `c` is whitespace in the sense of `char::is_whitespace`.
pub fn is_whitespace(c: char) -> (b: bool)
    ensures
        b == spec_is_whitespace(c),
{
    let u = c as u32;
    (0x09 <= u && u <= 0x0D) || u == 0x20 || u == 0x85 || u == 0xA0 || u == 0x1680 || (0x2000
        <= u && u <= 0x200A) || u == 0x2028 || u == 0x2029 || u == 0x202F || u == 0x205F || u
        == 0x3000
}

/// Character-wise equality of two strings.
pub fn str_eq(a: &str, b: &str) -> (r: bool)
    ensures
        r == (a@ == b@),
{
    let n = a.unicode_len();
    if n != b.unicode_len() {
        return false;
    }
    let mut i: usize = 0;
    while i < n
        invariant
            n == a@.len(),
            n == b@.len(),
            i <= n,
            forall|j: int| 0 <= j < i ==> a@[j] == b@[j],
        decreases n - i,
    {
        if a.get_char(i) != b.get_char(i) {
            return false;
        }
        i = i + 1;
    }
    assert(a@ =~= b@);
    true
}

/// The `Debug` form of the string `s`: `s` in double quotes, with the
/// characters that `char::escape_debug` escapes written as escapes.
pub uninterp spec fn str_debug_text(s: Seq<char>) -> Seq<char>;

/// Writes the `Debug` form of `s` through `format!("{:?}", s)`, the
/// standard library's `impl Debug for str`. The contract names the result
/// ([`str_debug_text`]); which characters are escaped, and how, is not
/// stated.
#[verifier::external_body]
pub fn debug_quoted(s: &str) -> (r: String)
    ensures
        r@ == str_debug_text(s@),
{
    format!("{:?}", s)
}

/// Copies a string slice into an owned string.
pub fn to_owned_string(s: &str) -> (r: String)
    ensures
        r@ == s@,
{
    s.to_string()
}


/// Trimming the leading whitespace of a suffix of `s` whose skipped prefix is
/// all whitespace gives the same result as trimming `s`.
proof fn lemma_trim_start_skip(s: Seq<char>, i: int)
    requires
        0 <= i < s.len(),
        spec_is_whitespace(s[i]),
    ensures
        spec_trim_start(s.skip(i)) == spec_trim_start(s.skip(i + 1)),
{
    assert(s.skip(i).drop_first() =~= s.skip(i + 1));
}

/// Trimming the trailing whitespace of a prefix of `s`.
proof fn lemma_trim_end_take(s: Seq<char>, i: int)
    requires
        0 < i <= s.len(),
        spec_is_whitespace(s[i - 1]),
    ensures
        spec_trim_end(s.take(i)) == spec_trim_end(s.take(i - 1)),
{
    assert(s.take(i).drop_last() =~= s.take(i - 1));
}

/// Trimming the trailing run of `c` of a prefix of `s`.
proof fn lemma_trim_end_char_take(s: Seq<char>, c: char, i: int)
    requires
        0 < i <= s.len(),
        s[i - 1] == c,
    ensures
        spec_trim_end_char(s.take(i), c) == spec_trim_end_char(s.take(i - 1), c),
{
    assert(s.take(i).drop_last() =~= s.take(i - 1));
}

/// `s` without its leading whitespace, like `str::trim_start`.
pub fn trim_start(s: &str) -> (r: &str)
    ensures
        r@ == spec_trim_start(s@),
{
    let n = s.unicode_len();
    let mut i: usize = 0;
    assert(s@.skip(0) =~= s@);
    while i < n && is_whitespace(s.get_char(i))
        invariant
            n == s@.len(),
            i <= n,
            spec_trim_start(s@) == spec_trim_start(s@.skip(i as int)),
        decreases n - i,
    {
        proof { lemma_trim_start_skip(s@, i as int); }
        i = i + 1;
    }
    let r = s.substring_char(i, n);
    proof {
        assert(r@ =~= s@.skip(i as int));
        if i < n {
            assert(s@.skip(i as int)[0] == s@[i as int]);
        }
    }
    r
}

/// `s` without its trailing whitespace, like `str::trim_end`.
pub fn trim_end(s: &str) -> (r: &str)
    ensures
        r@ == spec_trim_end(s@),
{
    let n = s.unicode_len();
    let mut i: usize = n;
    assert(s@.take(n as int) =~= s@);
    while i > 0 && is_whitespace(s.get_char(i - 1))
        invariant
            n == s@.len(),
            i <= n,
            spec_trim_end(s@) == spec_trim_end(s@.take(i as int)),
        decreases i,
    {
        proof { lemma_trim_end_take(s@, i as int); }
        i = i - 1;
    }
    let r = s.substring_char(0, i);
    proof {
        assert(r@ =~= s@.take(i as int));
        if i > 0 {
            assert(s@.take(i as int).last() == s@[i - 1]);
        }
    }
    r
}

/// `s` without leading and trailing whitespace, like `str::trim`.
pub fn trim(s: &str) -> (r: &str)
    ensures
        r@ == spec_trim(s@),
{
    trim_end(trim_start(s))
}

/// `s` without its trailing run of `c`, like `str::trim_end_matches` with a
/// `char` pattern.
pub fn trim_end_char(s: &str, c: char) -> (r: &str)
    ensures
        r@ == spec_trim_end_char(s@, c),
{
    let n = s.unicode_len();
    let mut i: usize = n;
    assert(s@.take(n as int) =~= s@);
    while i > 0 && s.get_char(i - 1) == c
        invariant
            n == s@.len(),
            i <= n,
            spec_trim_end_char(s@, c) == spec_trim_end_char(s@.take(i as int), c),
        decreases i,
    {
        proof { lemma_trim_end_char_take(s@, c, i as int); }
        i = i - 1;
    }
    let r = s.substring_char(0, i);
    proof {
        assert(r@ =~= s@.take(i as int));
        if i > 0 {
            assert(s@.take(i as int).last() == s@[i - 1]);
        }
    }
    r
}


/// Trimming a trailing run of `c` keeps a prefix of `s`, removes only `c`
/// characters, leaves no trailing `c`, and changes nothing when repeated.
pub proof fn lemma_trim_end_char(s: Seq<char>, c: char)
    ensures
        spec_trim_end_char(s, c).len() <= s.len(),
        spec_trim_end_char(s, c) == s.take(spec_trim_end_char(s, c).len() as int),
        forall|i: int| spec_trim_end_char(s, c).len() <= i < s.len() ==> s[i] == c,
        spec_trim_end_char(s, c).len() == 0 || spec_trim_end_char(s, c).last() != c,
        spec_trim_end_char(spec_trim_end_char(s, c), c) == spec_trim_end_char(s, c),
    decreases s.len(),
{
    if s.len() > 0 && s.last() == c {
        lemma_trim_end_char(s.drop_last(), c);
        let r = spec_trim_end_char(s, c);
        assert(s.drop_last().take(r.len() as int) =~= s.take(r.len() as int));
        assert forall|i: int| r.len() <= i < s.len() implies s[i] == c by {
            if i < s.len() - 1 {
                assert(s.drop_last()[i] == s[i]);
            }
        }
    } else {
        assert(s.take(s.len() as int) =~= s);
    }
}

/// Trimming whitespace at both ends leaves none at either end.
pub proof fn lemma_trim_no_outer_whitespace(s: Seq<char>)
    ensures
        spec_trim(s).len() == 0 || (!spec_is_whitespace(spec_trim(s)[0])
            && !spec_is_whitespace(spec_trim(s).last())),
{
    lemma_trim_start_no_leading(s);
    lemma_trim_end_keeps_first(spec_trim_start(s));
}

proof fn lemma_trim_start_no_leading(s: Seq<char>)
    ensures
        spec_trim_start(s).len() == 0 || !spec_is_whitespace(spec_trim_start(s)[0]),
    decreases s.len(),
{
    if s.len() > 0 && spec_is_whitespace(s[0]) {
        lemma_trim_start_no_leading(s.drop_first());
    }
}

proof fn lemma_trim_end_keeps_first(s: Seq<char>)
    ensures
        spec_trim_end(s).len() == 0 || (spec_trim_end(s)[0] == s[0] && !spec_is_whitespace(
            spec_trim_end(s).last(),
        )),
    decreases s.len(),
{
    if s.len() > 0 && spec_is_whitespace(s.last()) {
        lemma_trim_end_keeps_first(s.drop_last());
    }
}

} // verus!
