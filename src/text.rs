//! Text helpers over the character sequence of a string: exact comparison,
//! whitespace trimming and the last whitespace-delimited word.
use vstd::prelude::*;

verus! {

/// Whether `c` has Unicode's `White_Space` property: the characters that
/// `char::is_whitespace` accepts.
pub open spec fn white_space(c: char) -> bool {
    let u = c as u32;
    ||| 0x9 <= u <= 0xD
    ||| u == 0x20
    ||| u == 0x85
    ||| u == 0xA0
    ||| u == 0x1680
    ||| 0x2000 <= u <= 0x200A
    ||| u == 0x2028
    ||| u == 0x2029
    ||| u == 0x202F
    ||| u == 0x205F
    ||| u == 0x3000
}

/// Whether `c` is a whitespace character.
pub fn is_white_space(c: char) -> (r: bool)
    ensures
        r == white_space(c),
{
    let u: u32 = c as u32;
    (0x9 <= u && u <= 0xD) || u == 0x20 || u == 0x85 || u == 0xA0 || u == 0x1680 || (0x2000
        <= u && u <= 0x200A) || u == 0x2028 || u == 0x2029 || u == 0x202F || u == 0x205F || u
        == 0x3000
}

/// `s` without its trailing whitespace.
pub open spec fn trim_end_of(s: Seq<char>) -> Seq<char>
    decreases s.len(),
{
    if s.len() > 0 && white_space(s.last()) {
        trim_end_of(s.drop_last())
    } else {
        s
    }
}

/// `s` without its leading whitespace.
pub open spec fn trim_start_of(s: Seq<char>) -> Seq<char>
    decreases s.len(),
{
    if s.len() > 0 && white_space(s[0]) {
        trim_start_of(s.drop_first())
    } else {
        s
    }
}

/// `s` without leading and trailing whitespace.
pub open spec fn trimmed(s: Seq<char>) -> Seq<char> {
    trim_start_of(trim_end_of(s))
}

/// The longest suffix of `s` that holds no whitespace.
pub open spec fn word_suffix(s: Seq<char>) -> Seq<char>
    decreases s.len(),
{
    if s.len() > 0 && !white_space(s.last()) {
        word_suffix(s.drop_last()).push(s.last())
    } else {
        Seq::empty()
    }
}

/// The last whitespace-delimited word of `s`, if `s` holds any.
pub open spec fn last_word(s: Seq<char>) -> Option<Seq<char>> {
    if trim_end_of(s).len() == 0 {
        None
    } else {
        Some(word_suffix(trim_end_of(s)))
    }
}

/// `s` without any of its leading `'v'` characters.
pub open spec fn without_leading_v(s: Seq<char>) -> Seq<char>
    decreases s.len(),
{
    if s.len() > 0 && s[0] == 'v' {
        without_leading_v(s.drop_first())
    } else {
        s
    }
}

/// The characters of an optional string.
pub open spec fn view_opt(o: Option<&str>) -> Option<Seq<char>> {
    match o {
        Some(s) => Some(s@),
        None => None,
    }
}

/// The characters of an optional owned string.
pub open spec fn view_opt_string(o: Option<String>) -> Option<Seq<char>> {
    match o {
        Some(s) => Some(s@),
        None => None,
    }
}

/// Whether two strings hold the same characters.
pub fn same_text(a: &str, b: &str) -> (r: bool)
    ensures
        r == (a@ == b@),
{
    let n = a.unicode_len();
    if n != b.unicode_len() {
        return false;
    }
    let mut i: usize = 0;
    while i < n
        invariant
            n == a@.len(),
            n == b@.len(),
            i <= n,
            a@.subrange(0, i as int) == b@.subrange(0, i as int),
        decreases n - i,
    {
        if a.get_char(i) != b.get_char(i) {
            assert(a@[i as int] != b@[i as int]);
            return false;
        }
        assert(a@.subrange(0, i + 1) == a@.subrange(0, i as int).push(a@[i as int]));
        assert(b@.subrange(0, i + 1) == b@.subrange(0, i as int).push(b@[i as int]));
        i = i + 1;
    }
    assert(a@ == a@.subrange(0, n as int));
    assert(b@ == b@.subrange(0, n as int));
    true
}

/// The text of `a` followed by the text of `b`.
pub fn joined(a: &str, b: &str) -> (r: String)
    ensures
        r@ == a@ + b@,
{
    let mut r = String::from_str(a);
    r.append(b);
    r
}

/// Index at which the trailing whitespace of `s` begins.
fn trim_end_index(s: &str) -> (j: usize)
    ensures
        j <= s@.len(),
        trim_end_of(s@) == s@.subrange(0, j as int),
{
    let n = s.unicode_len();
    let mut j: usize = n;
    assert(s@.subrange(0, n as int) == s@);
    while j > 0 && is_white_space(s.get_char(j - 1))
        invariant
            n == s@.len(),
            j <= n,
            trim_end_of(s@) == trim_end_of(s@.subrange(0, j as int)),
        decreases j,
    {
        assert(s@.subrange(0, j as int).drop_last() == s@.subrange(0, j - 1));
        j = j - 1;
    }
    j
}

/// Index at which `s@.subrange(0, end)` stops starting with whitespace.
fn trim_start_index(s: &str, end: usize) -> (i: usize)
    requires
        end <= s@.len(),
    ensures
        i <= end,
        trim_start_of(s@.subrange(0, end as int)) == s@.subrange(i as int, end as int),
{
    let mut i: usize = 0;
    while i < end && is_white_space(s.get_char(i))
        invariant
            end <= s@.len(),
            i <= end,
            trim_start_of(s@.subrange(0, end as int)) == trim_start_of(
                s@.subrange(i as int, end as int),
            ),
        decreases end - i,
    {
        assert(s@.subrange(i as int, end as int).drop_first() == s@.subrange(i + 1, end as int));
        i = i + 1;
    }
    i
}

/// Index at which the last word of `s@.subrange(0, end)` begins.
fn word_start_index(s: &str, end: usize) -> (i: usize)
    requires
        end <= s@.len(),
    ensures
        i <= end,
        word_suffix(s@.subrange(0, end as int)) == s@.subrange(i as int, end as int),
{
    let mut i: usize = end;
    assert(s@.subrange(end as int, end as int) =~= Seq::<char>::empty());
    assert(s@.subrange(0, end as int) =~= s@.subrange(0, end as int) + Seq::<char>::empty());
    while i > 0 && !is_white_space(s.get_char(i - 1))
        invariant
            end <= s@.len(),
            i <= end,
            word_suffix(s@.subrange(0, end as int)) == word_suffix(s@.subrange(0, i as int))
                + s@.subrange(i as int, end as int),
        decreases i,
    {
        let ghost pre = s@.subrange(0, i as int);
        assert(pre.drop_last() == s@.subrange(0, i - 1));
        assert(pre.last() == s@[i - 1]);
        assert(word_suffix(pre) == word_suffix(s@.subrange(0, i - 1)).push(s@[i - 1]));
        assert(word_suffix(s@.subrange(0, i - 1)).push(s@[i - 1]) + s@.subrange(
            i as int,
            end as int,
        ) =~= word_suffix(s@.subrange(0, i - 1)) + s@.subrange(i - 1, end as int));
        i = i - 1;
    }
    assert(word_suffix(s@.subrange(0, i as int)) == Seq::<char>::empty());
    assert(Seq::<char>::empty() + s@.subrange(i as int, end as int) =~= s@.subrange(
        i as int,
        end as int,
    ));
    i
}

/// `s` with leading and trailing whitespace removed.
pub fn trim(s: &str) -> (r: String)
    ensures
        r@ == trimmed(s@),
{
    let e = trim_end_index(s);
    let st = trim_start_index(s, e);
    String::from_str(s.substring_char(st, e))
}

/// The last whitespace-delimited word of `s`, or `None` when `s` is blank.
pub fn last_token(s: &str) -> (r: Option<String>)
    ensures
        r matches Some(t) ==> last_word(s@) == Some(t@),
        r is None ==> last_word(s@) is None,
{
    let e = trim_end_index(s);
    if e == 0 {
        return None;
    }
    let st = word_start_index(s, e);
    Some(String::from_str(s.substring_char(st, e)))
}

/// `s` with every leading `'v'` removed.
pub fn strip_leading_v(s: &str) -> (r: String)
    ensures
        r@ == without_leading_v(s@),
{
    let n = s.unicode_len();
    let mut i: usize = 0;
    assert(s@.subrange(0, n as int) == s@);
    while i < n && s.get_char(i) == 'v'
        invariant
            n == s@.len(),
            i <= n,
            without_leading_v(s@) == without_leading_v(s@.subrange(i as int, n as int)),
        decreases n - i,
    {
        assert(s@.subrange(i as int, n as int).drop_first() == s@.subrange(i + 1, n as int));
        i = i + 1;
    }
    String::from_str(s.substring_char(i, n))
}

} // verus!
