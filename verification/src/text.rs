//! Character-level string helpers used across the crate.
use vstd::prelude::*;
use vstd::string::*;

verus! {

/// Appends one character to a `String` (`String::push`).
#[verifier::external_body]
pub(crate) fn push_char(s: &mut String, c: char)
    ensures
        final(s)@ == old(s)@.push(c),
{
    s.push(c);
}

/// The characters of `s`, in order.
pub fn chars_of(s: &str) -> (r: Vec<char>)
    ensures
        r@ == s@,
{
    let mut r: Vec<char> = Vec::new();
    for c in it: s.chars()
        invariant
            it.seq() == s@,
            r@ == s@.take(it.index() as int),
    {
        proof {
            assert(s@.take(it.index() + 1) == s@.take(it.index() as int).push(c));
        }
        r.push(c);
    }
    proof {
        assert(r@ == s@);
    }
    r
}

/// Builds a `String` from the characters `cs[from..to]`.
pub fn string_from_chars(cs: &Vec<char>, from: usize, to: usize) -> (r: String)
    requires
        from <= to <= cs@.len(),
    ensures
        r@ == cs@.subrange(from as int, to as int),
{
    let mut r = String::new();
    let mut i = from;
    while i < to
        invariant
            from <= i <= to <= cs@.len(),
            r@ == cs@.subrange(from as int, i as int),
        decreases to - i,
    {
        push_char(&mut r, cs[i]);
        proof {
            assert(cs@.subrange(from as int, i + 1) == cs@.subrange(from as int, i as int).push(cs@[i as int]));
        }
        i = i + 1;
    }
    r
}

/// Copies a string slice into an owned `String`.
pub fn owned(s: &str) -> (r: String)
    ensures
        r@ == s@,
{
    String::from_str(s)
}

/// Appends `other` to `s`.
pub fn append_str(s: &mut String, other: &str)
    ensures
        final(s)@ == old(s)@ + other@,
{
    s.append(other);
}

/// Character-wise equality of two string slices.
pub fn str_eq(a: &str, b: &str) -> (r: bool)
    ensures
        r == (a@ == b@),
{
    let ca = chars_of(a);
    let cb = chars_of(b);
    if ca.len() != cb.len() {
        return false;
    }
    let mut i: usize = 0;
    while i < ca.len()
        invariant
            ca@ == a@,
            cb@ == b@,
            ca@.len() == cb@.len(),
            0 <= i <= ca@.len(),
            forall|j: int| 0 <= j < i ==> ca@[j] == cb@[j],
        decreases ca@.len() - i,
    {
        if ca[i] != cb[i] {
            return false;
        }
        i = i + 1;
    }
    proof {
        assert(ca@ =~= cb@);
    }
    true
}

/// Number of characters of a string slice.
pub fn char_count(s: &str) -> (n: usize)
    ensures
        n == s@.len(),
{
    chars_of(s).len()
}

/// Whether `prefix` is a prefix of `s`.
pub open spec fn has_prefix(s: Seq<char>, prefix: Seq<char>) -> bool {
    prefix.len() <= s.len() && s.take(prefix.len() as int) == prefix
}

/// Whether `needle` occurs in `s` at position `at`.
pub open spec fn occurs_at(s: Seq<char>, needle: Seq<char>, at: int) -> bool {
    0 <= at && at + needle.len() <= s.len() && s.subrange(at, at + needle.len()) == needle
}

/// Whether `needle` occurs anywhere in `s`.
pub open spec fn contains_seq(s: Seq<char>, needle: Seq<char>) -> bool {
    exists|at: int| occurs_at(s, needle, at)
}

/// Whether `cs[at..]` starts with `needle`.
pub fn matches_at(cs: &Vec<char>, needle: &Vec<char>, at: usize) -> (r: bool)
    ensures
        r == occurs_at(cs@, needle@, at as int),
{
    if at > cs.len() || needle.len() > cs.len() - at {
        return false;
    }
    let n = cs.len();
    let mut j: usize = 0;
    while j < needle.len()
        invariant
            n == cs@.len(),
            at <= cs@.len(),
            at + needle@.len() <= cs@.len(),
            0 <= j <= needle@.len(),
            forall|k: int| 0 <= k < j ==> cs@[at + k] == needle@[k],
        decreases needle@.len() - j,
    {
        assert(at + j < n);
        if cs[at + j] != needle[j] {
            proof {
                assert(cs@.subrange(at as int, at + needle@.len())[j as int] != needle@[j as int]);
            }
            return false;
        }
        j = j + 1;
    }
    proof {
        assert(cs@.subrange(at as int, at + needle@.len()) =~= needle@);
    }
    true
}

/// Whether `needle` occurs anywhere in `cs`.
pub fn contains_chars(cs: &Vec<char>, needle: &Vec<char>) -> (r: bool)
    ensures
        r == contains_seq(cs@, needle@),
{
    if needle.len() == 0 {
        proof {
            assert(cs@.subrange(0, 0) =~= needle@);
            assert(occurs_at(cs@, needle@, 0));
        }
        return true;
    }
    let mut at: usize = 0;
    while at < cs.len()
        invariant
            needle@.len() > 0,
            0 <= at <= cs@.len(),
            forall|k: int| 0 <= k < at ==> !occurs_at(cs@, needle@, k),
        decreases cs@.len() - at,
    {
        if matches_at(cs, needle, at) {
            return true;
        }
        at = at + 1;
    }
    proof {
        assert forall|k: int| !occurs_at(cs@, needle@, k) by {
            if 0 <= k < at {
            }
        }
    }
    false
}

/// `parts` joined with `sep` between consecutive elements.
pub open spec fn joined(parts: Seq<Seq<char>>, sep: Seq<char>) -> Seq<char>
    decreases parts.len(),
{
    if parts.len() == 0 {
        Seq::empty()
    } else if parts.len() == 1 {
        parts[0]
    } else {
        joined(parts.drop_last(), sep) + sep + parts.last()
    }
}

/// The views of a sequence of strings.
pub open spec fn views(v: Seq<String>) -> Seq<Seq<char>> {
    v.map_values(|s: String| s@)
}

/// Joins `parts[from..to]` with `sep`.
pub fn join_range(parts: &Vec<String>, from: usize, to: usize, sep: &str) -> (r: String)
    requires
        from <= to <= parts@.len(),
    ensures
        r@ == joined(views(parts@.subrange(from as int, to as int)), sep@),
{
    let mut r = String::new();
    let mut i = from;
    while i < to
        invariant
            from <= i <= to <= parts@.len(),
            r@ == joined(views(parts@.subrange(from as int, i as int)), sep@),
        decreases to - i,
    {
        let ghost before = views(parts@.subrange(from as int, i as int));
        let ghost after = views(parts@.subrange(from as int, i + 1));
        proof {
            assert(after.drop_last() =~= before);
            assert(after.last() == parts@[i as int]@);
        }
        if i > from {
            r.append(sep);
        }
        r.append(parts[i].as_str());
        i = i + 1;
    }
    r
}

/// Joins all of `parts` with `sep`.
pub fn join(parts: &Vec<String>, sep: &str) -> (r: String)
    ensures
        r@ == joined(views(parts@), sep@),
{
    let r = join_range(parts, 0, parts.len(), sep);
    proof {
        assert(parts@.subrange(0, parts@.len() as int) =~= parts@);
    }
    r
}

/// Whether a character has the Unicode `White_Space` property.
pub open spec fn is_space(c: char) -> bool {
    let u = c as u32;
    ||| 0x09 <= u <= 0x0d
    ||| u == 0x20
    ||| u == 0x85
    ||| u == 0xa0
    ||| u == 0x1680
    ||| 0x2000 <= u <= 0x200a
    ||| u == 0x2028
    ||| u == 0x2029
    ||| u == 0x202f
    ||| u == 0x205f
    ||| u == 0x3000
}

/// `char::is_whitespace`: whether `c` has the Unicode `White_Space` property,
/// which holds of exactly the code points [`is_space`] lists.
#[verifier::external_body]
pub(crate) fn char_is_whitespace(c: char) -> (r: bool)
    ensures
        r == is_space(c),
{
    c.is_whitespace()
}

/// Number of leading white-space characters of `s`.
pub open spec fn leading_space(s: Seq<char>) -> int
    decreases s.len(),
{
    if s.len() > 0 && is_space(s[0]) {
        1 + leading_space(s.drop_first())
    } else {
        0
    }
}

/// Number of trailing white-space characters of `s`.
pub open spec fn trailing_space(s: Seq<char>) -> int
    decreases s.len(),
{
    if s.len() > 0 && is_space(s.last()) {
        1 + trailing_space(s.drop_last())
    } else {
        0
    }
}

/// `leading_space` counts exactly the white space before the first other
/// character.
pub proof fn lemma_leading_space_is(s: Seq<char>, k: int)
    requires
        0 <= k <= s.len(),
        forall|j: int| 0 <= j < k ==> is_space(#[trigger] s[j]),
        k < s.len() ==> !is_space(s[k]),
    ensures
        leading_space(s) == k,
    decreases k,
{
    if k > 0 {
        assert(is_space(s[0]));
        assert forall|j: int| 0 <= j < k - 1 implies is_space(#[trigger] s.drop_first()[j]) by {
            assert(s.drop_first()[j] == s[j + 1]);
        }
        if k < s.len() {
            assert(s.drop_first()[k - 1] == s[k]);
        }
        lemma_leading_space_is(s.drop_first(), k - 1);
    }
}

/// The characters `leading_space` counts are white space, and the next one is not.
pub proof fn lemma_leading_space_facts(s: Seq<char>)
    ensures
        0 <= leading_space(s) <= s.len(),
        forall|j: int| 0 <= j < leading_space(s) ==> is_space(#[trigger] s[j]),
        leading_space(s) < s.len() ==> !is_space(s[leading_space(s)]),
    decreases s.len(),
{
    if s.len() > 0 && is_space(s[0]) {
        lemma_leading_space_facts(s.drop_first());
        assert forall|j: int| 0 <= j < leading_space(s) implies is_space(#[trigger] s[j]) by {
            if j > 0 {
                assert(s[j] == s.drop_first()[j - 1]);
            }
        }
        if leading_space(s) < s.len() {
            assert(s[leading_space(s)] == s.drop_first()[leading_space(s) - 1]);
        }
    }
}

/// `trailing_space` counts exactly the white space after the last other character.
pub proof fn lemma_trailing_space_is(s: Seq<char>, k: int)
    requires
        0 <= k <= s.len(),
        forall|j: int| s.len() - k <= j < s.len() ==> is_space(#[trigger] s[j]),
        k < s.len() ==> !is_space(s[s.len() - 1 - k]),
    ensures
        trailing_space(s) == k,
    decreases k,
{
    if k > 0 {
        assert(is_space(s[s.len() - 1]));
        assert forall|j: int| s.drop_last().len() - (k - 1) <= j < s.drop_last().len() implies is_space(
            #[trigger] s.drop_last()[j],
        ) by {
            assert(s.drop_last()[j] == s[j]);
        }
        if k < s.len() {
            assert(s.drop_last()[s.drop_last().len() - 1 - (k - 1)] == s[s.len() - 1 - k]);
        }
        lemma_trailing_space_is(s.drop_last(), k - 1);
    }
}

/// The characters `trailing_space` counts are white space, and the one before
/// them is not.
pub proof fn lemma_trailing_space_facts(s: Seq<char>)
    ensures
        0 <= trailing_space(s) <= s.len(),
        forall|j: int| s.len() - trailing_space(s) <= j < s.len() ==> is_space(#[trigger] s[j]),
        trailing_space(s) < s.len() ==> !is_space(s[s.len() - 1 - trailing_space(s)]),
    decreases s.len(),
{
    if s.len() > 0 && is_space(s.last()) {
        lemma_trailing_space_facts(s.drop_last());
        assert forall|j: int| s.len() - trailing_space(s) <= j < s.len() implies is_space(
            #[trigger] s[j],
        ) by {
            if j < s.len() - 1 {
                assert(s[j] == s.drop_last()[j]);
            }
        }
        if trailing_space(s) < s.len() {
            assert(s[s.len() - 1 - trailing_space(s)] == s.drop_last()[s.len() - 1 - trailing_space(s)]);
        }
    }
}

/// `s` without leading and trailing white space (`str::trim`).
pub open spec fn trimmed(s: Seq<char>) -> Seq<char> {
    let a = leading_space(s);
    let rest = s.skip(a);
    rest.take(rest.len() - trailing_space(rest))
}

/// `s` without leading white space (`str::trim_start`).
pub open spec fn trimmed_start(s: Seq<char>) -> Seq<char> {
    s.skip(leading_space(s))
}

/// Removes leading white space.
pub fn trim_start(s: &str) -> (r: String)
    ensures
        r@ == trimmed_start(s@),
{
    let cs = chars_of(s);
    let n = cs.len();
    let mut a: usize = 0;
    proof {
        assert(cs@.skip(0) =~= cs@);
    }
    while a < n && char_is_whitespace(cs[a])
        invariant
            n == cs@.len(),
            cs@ == s@,
            0 <= a <= n,
            leading_space(cs@) == a + leading_space(cs@.skip(a as int)),
        decreases n - a,
    {
        proof {
            assert(cs@.skip(a as int).drop_first() =~= cs@.skip(a + 1));
        }
        a = a + 1;
    }
    proof {
        if a < n {
            assert(cs@.skip(a as int)[0] == cs@[a as int]);
        }
        assert(leading_space(cs@.skip(a as int)) == 0);
        assert(cs@.subrange(a as int, n as int) =~= cs@.skip(a as int));
    }
    string_from_chars(&cs, a, n)
}

/// Index of the first `'\n'` in `s` at or after `i`, or `s.len()` when there is none.
pub open spec fn line_end(s: Seq<char>, i: int) -> int
    decreases s.len() - i,
{
    if i >= s.len() || s[i] == '\n' {
        i
    } else {
        line_end(s, i + 1)
    }
}

/// `l` without one trailing carriage return.
pub open spec fn strip_cr(l: Seq<char>) -> Seq<char> {
    if l.len() > 0 && l.last() == '\r' {
        l.drop_last()
    } else {
        l
    }
}

pub proof fn lemma_line_end_bounds(s: Seq<char>, i: int)
    requires
        0 <= i,
    ensures
        i <= s.len() ==> i <= line_end(s, i) <= s.len(),
        i > s.len() ==> line_end(s, i) == i,
        forall|k: int| i <= k < line_end(s, i) ==> s[k] != '\n',
        line_end(s, i) < s.len() ==> s[line_end(s, i)] == '\n',
    decreases s.len() - i,
{
    if !(i >= s.len() || s[i] == '\n') {
        lemma_line_end_bounds(s, i + 1);
    }
}

/// The line of `s` that starts at `i`, without its line ending.
pub open spec fn line_at(s: Seq<char>, i: int) -> Seq<char> {
    let e = line_end(s, i);
    let raw = s.subrange(i, e);
    if e < s.len() {
        strip_cr(raw)
    } else {
        raw
    }
}

/// The lines of `s[i..]` as `str::lines` splits them: at each `'\n'`, dropping a
/// `'\r'` just before it; a final line ending is optional and adds no empty line.
pub open spec fn lines_from(s: Seq<char>, i: int) -> Seq<Seq<char>>
    decreases s.len() - i,
    via lines_from_decreases
{
    if i < 0 || i >= s.len() {
        Seq::empty()
    } else {
        if line_end(s, i) < s.len() {
            seq![line_at(s, i)] + lines_from(s, line_end(s, i) + 1)
        } else {
            seq![line_at(s, i)]
        }
    }
}

#[via_fn]
proof fn lines_from_decreases(s: Seq<char>, i: int) {
    if !(i < 0 || i >= s.len()) {
        lemma_line_end_bounds(s, i);
    }
}

/// The lines of `s` (`str::lines`).
pub open spec fn text_lines(s: Seq<char>) -> Seq<Seq<char>> {
    lines_from(s, 0)
}

/// Splits `s` into lines as `str::lines` does.
pub fn split_lines(s: &str) -> (r: Vec<String>)
    ensures
        views(r@) == text_lines(s@),
{
    let cs = chars_of(s);
    let n = cs.len();
    let mut r: Vec<String> = Vec::new();
    let mut i: usize = 0;
    while i < n
        invariant
            n == cs@.len(),
            cs@ == s@,
            0 <= i <= n,
            text_lines(s@) == views(r@) + lines_from(s@, i as int),
        decreases n - i,
    {
        let mut j = i;
        proof {
            lemma_line_end_bounds(s@, i as int);
        }
        while j < n && cs[j] != '\n'
            invariant
                n == cs@.len(),
                cs@ == s@,
                i <= j <= n,
                line_end(s@, i as int) == line_end(s@, j as int),
            decreases n - j,
        {
            j = j + 1;
        }
        proof {
            assert(line_end(s@, j as int) == j);
        }
        let end: usize = if j < n && j > i && cs[j - 1] == '\r' { j - 1 } else { j };
        let line = string_from_chars(&cs, i, end);
        let ghost raw = s@.subrange(i as int, j as int);
        proof {
            if j < n {
                if j > i && cs@[j - 1] == '\r' {
                    assert(raw.last() == cs@[j - 1]);
                    assert(strip_cr(raw) =~= cs@.subrange(i as int, end as int));
                } else {
                    assert(strip_cr(raw) =~= cs@.subrange(i as int, end as int));
                }
            }
            assert(views(r@.push(line)) =~= views(r@).push(line@));
            assert(lines_from(s@, i as int) =~= seq![line@] + lines_from(s@, j + 1));
        }
        r.push(line);
        i = if j < n { j + 1 } else { n };
        proof {
            assert(views(r@) + lines_from(s@, i as int) =~= views(r@.drop_last()) + (seq![line@] + lines_from(s@, j + 1)));
        }
    }
    proof {
        assert(views(r@) + lines_from(s@, i as int) =~= views(r@));
    }
    r
}

/// Index of the first element of `ls` at or after `i` equal to `x`, or `ls.len()`
/// when there is none.
pub open spec fn position_from(ls: Seq<Seq<char>>, x: Seq<char>, i: int) -> int
    decreases ls.len() - i,
{
    if i >= ls.len() {
        ls.len() as int
    } else if ls[i] == x {
        i
    } else {
        position_from(ls, x, i + 1)
    }
}

pub proof fn lemma_position_from(ls: Seq<Seq<char>>, x: Seq<char>, i: int)
    requires
        0 <= i <= ls.len(),
    ensures
        i <= position_from(ls, x, i) <= ls.len(),
        position_from(ls, x, i) < ls.len() ==> ls[position_from(ls, x, i)] == x,
        forall|k: int| i <= k < position_from(ls, x, i) ==> ls[k] != x,
    decreases ls.len() - i,
{
    if i < ls.len() && ls[i] != x {
        lemma_position_from(ls, x, i + 1);
    }
}

/// Removes leading and trailing white space.
pub fn trim(s: &str) -> (r: String)
    ensures
        r@ == trimmed(s@),
{
    let cs = chars_of(s);
    let n = cs.len();
    let mut a: usize = 0;
    proof {
        assert(cs@.skip(0) =~= cs@);
    }
    while a < n && char_is_whitespace(cs[a])
        invariant
            n == cs@.len(),
            cs@ == s@,
            0 <= a <= n,
            leading_space(cs@) == a + leading_space(cs@.skip(a as int)),
        decreases n - a,
    {
        proof {
            assert(cs@.skip(a as int).drop_first() =~= cs@.skip(a + 1));
        }
        a = a + 1;
    }
    proof {
        if a < n {
            assert(cs@.skip(a as int)[0] == cs@[a as int]);
        }
        assert(leading_space(cs@.skip(a as int)) == 0);
    }
    let ghost rest = cs@.skip(a as int);
    proof {
        assert(rest.take(n - a) =~= rest);
    }
    let mut b: usize = n;
    while b > a && char_is_whitespace(cs[b - 1])
        invariant
            n == cs@.len(),
            rest == cs@.skip(a as int),
            a <= b <= n,
            trailing_space(rest) == (n - b) + trailing_space(rest.take(b - a)),
        decreases b - a,
    {
        proof {
            assert(rest.take(b - a).drop_last() =~= rest.take(b - 1 - a));
            assert(rest.take(b - a).last() == cs@[b - 1]);
        }
        b = b - 1;
    }
    proof {
        if b > a {
            assert(rest.take(b - a).last() == cs@[b - 1]);
        }
        assert(trailing_space(rest.take(b - a)) == 0);
        assert(rest.take(b - a) =~= rest.take(rest.len() - trailing_space(rest)));
        assert(cs@.subrange(a as int, b as int) =~= rest.take(b - a));
    }
    string_from_chars(&cs, a, b)
}

} // verus!
