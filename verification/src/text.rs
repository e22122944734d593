//! Character-level text utilities: trimming, first-line extraction,
//! placeholder replacement and the conventional-commit header test.

use vstd::prelude::*;
use vstd::string::StrSliceExecFns;

verus! {

/// Whether `c` counts as white space for trimming.
pub uninterp spec fn whitespace_char(c: char) -> bool;

/// Relies on char::is_whitespace: true exactly for characters with the
/// Unicode `White_Space` property, a function of the character alone.
pub assume_specification[ char::is_whitespace ](c: char) -> (r: bool)
    ensures
        r == whitespace_char(c),
;

/// `s` without its leading white space.
pub open spec fn trim_start_spec(s: Seq<char>) -> Seq<char>
    decreases s.len(),
{
    if s.len() > 0 && whitespace_char(s[0]) {
        trim_start_spec(s.drop_first())
    } else {
        s
    }
}

/// `s` without its trailing white space.
pub open spec fn trim_end_spec(s: Seq<char>) -> Seq<char>
    decreases s.len(),
{
    if s.len() > 0 && whitespace_char(s.last()) {
        trim_end_spec(s.drop_last())
    } else {
        s
    }
}

/// `s` without leading and trailing white space, as `str::trim` leaves it.
pub open spec fn trim_spec(s: Seq<char>) -> Seq<char> {
    trim_end_spec(trim_start_spec(s))
}

/// Removes the leading white space of `s`.
pub fn trim_front(s: &str) -> (r: &str)
    ensures
        r@ == trim_start_spec(s@),
    decreases s@.len(),
{
    let n = s.unicode_len();
    if n > 0 && s.get_char(0).is_whitespace() {
        let rest = s.substring_char(1, n);
        proof {
            assert(rest@ =~= s@.drop_first());
        }
        trim_front(rest)
    } else {
        s
    }
}

/// Removes the trailing white space of `s`.
pub fn trim_back(s: &str) -> (r: &str)
    ensures
        r@ == trim_end_spec(s@),
    decreases s@.len(),
{
    let n = s.unicode_len();
    if n > 0 && s.get_char(n - 1).is_whitespace() {
        let rest = s.substring_char(0, n - 1);
        proof {
            assert(rest@ =~= s@.drop_last());
        }
        trim_back(rest)
    } else {
        s
    }
}

/// Removes leading and trailing white space, as `str::trim` does.
pub fn trim(s: &str) -> (r: &str)
    ensures
        r@ == trim_spec(s@),
{
    trim_back(trim_front(s))
}

/// The characters of `s` before its first line break.
pub open spec fn before_first_newline(s: Seq<char>) -> Seq<char>
    decreases s.len(),
{
    if s.len() == 0 {
        s
    } else if s[0] == '\n' {
        Seq::empty()
    } else {
        seq![s[0]] + before_first_newline(s.drop_first())
    }
}

/// A line's text without a final carriage return.
pub open spec fn strip_trailing_cr(s: Seq<char>) -> Seq<char> {
    if s.len() > 0 && s.last() == '\r' {
        s.drop_last()
    } else {
        s
    }
}

/// The first line of `s`, as `str::lines` yields it: the text before the
/// first '\n', without a final '\r'.
pub open spec fn first_line_spec(s: Seq<char>) -> Seq<char> {
    strip_trailing_cr(before_first_newline(s))
}

proof fn lemma_before_first_newline_prefix(s: Seq<char>, i: int)
    requires
        0 <= i <= s.len(),
        forall|k: int| 0 <= k < i ==> s[k] != '\n',
        i == s.len() || s[i] == '\n',
    ensures
        before_first_newline(s) == s.subrange(0, i),
    decreases i,
{
    if i == 0 {
        assert(before_first_newline(s) =~= s.subrange(0, 0));
    } else {
        let t = s.drop_first();
        assert(forall|k: int| 0 <= k < i - 1 ==> t[k] != '\n');
        lemma_before_first_newline_prefix(t, i - 1);
        assert(before_first_newline(s) == seq![s[0]] + t.subrange(0, i - 1));
        assert(seq![s[0]] + t.subrange(0, i - 1) =~= s.subrange(0, i));
    }
}

/// The first line of `s`, as `str::lines` yields it (the empty string
/// when `s` is empty).
pub fn first_line(s: &str) -> (r: &str)
    ensures
        r@ == first_line_spec(s@),
{
    let n = s.unicode_len();
    let mut i: usize = 0;
    while i < n && s.get_char(i) != '\n'
        invariant
            0 <= i <= n,
            n == s@.len(),
            forall|k: int| 0 <= k < i ==> s@[k] != '\n',
        decreases n - i,
    {
        i += 1;
    }
    proof {
        lemma_before_first_newline_prefix(s@, i as int);
    }
    let head = s.substring_char(0, i);
    let m = head.unicode_len();
    if m > 0 && head.get_char(m - 1) == '\r' {
        let r = head.substring_char(0, m - 1);
        proof {
            assert(r@ =~= head@.drop_last());
        }
        r
    } else {
        head
    }
}

/// Whether `c` is an ASCII lower-case letter.
pub open spec fn lower_alpha(c: char) -> bool {
    97 <= c as u32 && c as u32 <= 122
}

fn is_lower_alpha(c: char) -> (r: bool)
    ensures
        r == lower_alpha(c),
{
    let u = c as u32;
    97 <= u && u <= 122
}

/// Whether `s` opens like a conventional commit title: one or more
/// lower-case letters, a colon, one white-space character, and at least
/// one further character that is not a line break.
pub open spec fn conventional_header_spec(s: Seq<char>) -> bool {
    exists|i: int|
        #![trigger s[i]]
        {
            &&& 1 <= i
            &&& i + 2 < s.len()
            &&& (forall|k: int| 0 <= k < i ==> lower_alpha(s[k]))
            &&& s[i] == ':'
            &&& whitespace_char(s[i + 1])
            &&& s[i + 2] != '\n'
        }
}

/// Decides `conventional_header_spec` on the characters of `s`.
pub fn is_conventional_header(s: &str) -> (r: bool)
    ensures
        r == conventional_header_spec(s@),
{
    let n = s.unicode_len();
    let mut i: usize = 0;
    while i < n && is_lower_alpha(s.get_char(i))
        invariant
            0 <= i <= n,
            n == s@.len(),
            forall|k: int| 0 <= k < i ==> lower_alpha(s@[k]),
        decreases n - i,
    {
        i += 1;
    }
    // `i` is now the length of the maximal leading run of lower-case
    // letters; a colon can only follow that run.
    if i >= 1 && n > 2 && i < n - 2 && s.get_char(i) == ':' && s.get_char(i + 1).is_whitespace()
        && s.get_char(i + 2) != '\n' {
        true
    } else {
        proof {
            if conventional_header_spec(s@) {
                let j = choose|j: int|
                    #![trigger s@[j]]
                    {
                        &&& 1 <= j
                        &&& j + 2 < s@.len()
                        &&& (forall|k: int| 0 <= k < j ==> lower_alpha(s@[k]))
                        &&& s@[j] == ':'
                        &&& whitespace_char(s@[j + 1])
                        &&& s@[j + 2] != '\n'
                    };
                assert(!lower_alpha(':'));
                assert(j >= i || lower_alpha(s@[j]));
                assert(j <= i || lower_alpha(s@[i as int]));
                assert(j == i);
            }
        }
        false
    }
}

/// `s` with every occurrence of `from` replaced by `to`: matches are
/// found left to right and do not overlap.
pub open spec fn replace_spec(s: Seq<char>, from: Seq<char>, to: Seq<char>) -> Seq<char>
    decreases s.len(),
{
    if from.len() == 0 || s.len() < from.len() {
        s
    } else if s.subrange(0, from.len() as int) == from {
        to + replace_spec(s.skip(from.len() as int), from, to)
    } else {
        seq![s[0]] + replace_spec(s.drop_first(), from, to)
    }
}

/// Relies on str::replace: every non-overlapping occurrence of `from`,
/// found scanning left to right, is replaced by `to`.
#[verifier::external_body]
pub fn replace_all(s: &str, from: &str, to: &str) -> (r: String)
    requires
        from@.len() > 0,
    ensures
        r@ == replace_spec(s@, from@, to@),
{
    s.replace(from, to)
}

} // verus!
