//! Text operations on Unicode strings.

use vstd::prelude::*;
use vstd::string::*;
use vstd::utf8::*;

verus! {

/// The characters with the Unicode property White_Space.
pub open spec fn is_white_space(c: char) -> bool {
    let u = c as u32;
    ||| 0x09 <= u <= 0x0d
    ||| u == 0x20
    ||| u == 0x85
    ||| u == 0xa0
    ||| u == 0x1680
    ||| 0x2000 <= u <= 0x200a
    ||| u == 0x2028
    ||| u == 0x2029
    ||| u == 0x202f
    ||| u == 0x205f
    ||| u == 0x3000
}

/// `s` without its leading white space.
pub open spec fn trim_start_spec(s: Seq<char>) -> Seq<char>
    decreases s.len(),
{
    if s.len() > 0 && is_white_space(s[0]) {
        trim_start_spec(s.drop_first())
    } else {
        s
    }
}

/// `s` without its trailing white space.
pub open spec fn trim_end_spec(s: Seq<char>) -> Seq<char>
    decreases s.len(),
{
    if s.len() > 0 && is_white_space(s.last()) {
        trim_end_spec(s.drop_last())
    } else {
        s
    }
}

/// `s` without its leading and trailing white space.
pub open spec fn trim_spec(s: Seq<char>) -> Seq<char> {
    trim_end_spec(trim_start_spec(s))
}

proof fn lemma_trim_start_at(s: Seq<char>, n: int)
    requires
        0 <= n <= s.len(),
        forall|j: int| 0 <= j < n ==> is_white_space(s[j]),
        n < s.len() ==> !is_white_space(s[n]),
    ensures
        trim_start_spec(s) == s.skip(n),
    decreases s.len(),
{
    if n > 0 {
        lemma_trim_start_at(s.drop_first(), n - 1);
        assert(s.drop_first().skip(n - 1) =~= s.skip(n));
    } else {
        assert(s.skip(0) =~= s);
    }
}

proof fn lemma_trim_end_at(s: Seq<char>, n: int)
    requires
        0 <= n <= s.len(),
        forall|j: int| n <= j < s.len() ==> is_white_space(s[j]),
        n > 0 ==> !is_white_space(s[n - 1]),
    ensures
        trim_end_spec(s) == s.take(n),
    decreases s.len(),
{
    if n < s.len() {
        lemma_trim_end_at(s.drop_last(), n);
        assert(s.drop_last().take(n) =~= s.take(n));
    } else {
        assert(s.take(n) =~= s);
    }
}

/// Whether `c` has the Unicode property White_Space.
pub fn is_whitespace(c: char) -> (r: bool)
    ensures
        r == is_white_space(c),
{
    let u: u32 = c as u32;
    (0x09 <= u && u <= 0x0d) || u == 0x20 || u == 0x85 || u == 0xa0 || u == 0x1680 || (0x2000 <= u
        && u <= 0x200a) || u == 0x2028 || u == 0x2029 || u == 0x202f || u == 0x205f || u == 0x3000
}

/// `s` without its leading and trailing white space.
pub fn trim(s: &str) -> (r: &str)
    ensures
        r@ == trim_spec(s@),
{
    let n: usize = s.unicode_len();
    let mut start: usize = 0;
    let mut end: usize = 0;
    let mut i: usize = 0;
    for c in it: s.chars()
        invariant
            it.seq() == s@,
            n == s@.len(),
            i == it.index(),
            start <= i,
            end <= i,
            forall|j: int| 0 <= j < start ==> is_white_space(s@[j]),
            start < i ==> !is_white_space(s@[start as int]) && start < end,
            start == i ==> end == 0,
            end > 0 ==> !is_white_space(s@[end - 1]),
            forall|j: int| end <= j < i ==> is_white_space(s@[j]),
    {
        if is_whitespace(c) {
            if start == i {
                start = i + 1;
            }
        } else {
            end = i + 1;
        }
        i = i + 1;
    }
    if end < start {
        end = start;
    }
    proof {
        lemma_trim_start_at(s@, start as int);
        lemma_trim_end_at(s@.skip(start as int), end - start);
        assert(s@.skip(start as int).take(end - start) =~= s@.subrange(start as int, end as int));
    }
    s.substring_char(start, end)
}

/// `s` without its trailing white space.
pub fn trim_end(s: &str) -> (r: &str)
    ensures
        r@ == trim_end_spec(s@),
{
    let n: usize = s.unicode_len();
    let mut end: usize = 0;
    let mut i: usize = 0;
    for c in it: s.chars()
        invariant
            it.seq() == s@,
            n == s@.len(),
            i == it.index(),
            end <= i,
            end > 0 ==> !is_white_space(s@[end - 1]),
            forall|j: int| end <= j < i ==> is_white_space(s@[j]),
    {
        i = i + 1;
        if !is_whitespace(c) {
            end = i;
        }
    }
    proof {
        lemma_trim_end_at(s@, end as int);
        assert(s@.take(end as int) =~= s@.subrange(0, end as int));
    }
    s.substring_char(0, end)
}

/// Whether two strings hold the same characters.
pub fn same_text(a: &str, b: &str) -> (r: bool)
    ensures
        r == (a@ == b@),
{
    a.to_owned() == b.to_owned()
}

/// The lower case of an ASCII letter; every other character stays as it is.
pub open spec fn ascii_lower_spec(c: char) -> char {
    if 'A' <= c <= 'Z' {
        ((c as u32) + 32) as char
    } else {
        c
    }
}

/// Whether two texts differ at most in the case of ASCII letters.
pub open spec fn same_ignoring_ascii_case(a: Seq<char>, b: Seq<char>) -> bool {
    &&& a.len() == b.len()
    &&& forall|i: int|
        0 <= i < a.len() ==> ascii_lower_spec(#[trigger] a[i]) == ascii_lower_spec(b[i])
}

/// Whether two characters differ at most in the case of an ASCII letter.
fn same_char_ignoring_ascii_case(c: char, d: char) -> (r: bool)
    ensures
        r == (ascii_lower_spec(c) == ascii_lower_spec(d)),
{
    let x: u32 = if 'A' <= c && c <= 'Z' {
        c as u32 + 32
    } else {
        c as u32
    };
    let y: u32 = if 'A' <= d && d <= 'Z' {
        d as u32 + 32
    } else {
        d as u32
    };
    x == y
}

/// Whether two strings differ at most in the case of ASCII letters.
pub fn eq_ignore_ascii_case(a: &str, b: &str) -> (r: bool)
    ensures
        r == same_ignoring_ascii_case(a@, b@),
{
    let n: usize = a.unicode_len();
    if n != b.unicode_len() {
        return false;
    }
    let mut i: usize = 0;
    while i < n
        invariant
            i <= n,
            n == a@.len(),
            n == b@.len(),
            forall|j: int|
                0 <= j < i ==> ascii_lower_spec(#[trigger] a@[j]) == ascii_lower_spec(b@[j]),
        decreases n - i,
    {
        if !same_char_ignoring_ascii_case(a.get_char(i), b.get_char(i)) {
            return false;
        }
        i = i + 1;
    }
    true
}

/// What follows `prefix` in `s`, when `s` begins with it.
pub open spec fn after_prefix(s: Seq<char>, prefix: Seq<char>) -> Option<Seq<char>> {
    if prefix.len() <= s.len() && s.take(prefix.len() as int) == prefix {
        Some(s.skip(prefix.len() as int))
    } else {
        None
    }
}

/// What follows `prefix` in `s`, when `s` begins with it.
pub fn strip_prefix<'a>(s: &'a str, prefix: &str) -> (r: Option<&'a str>)
    ensures
        r.deep_view() == after_prefix(s@, prefix@),
{
    let n: usize = s.unicode_len();
    let p: usize = prefix.unicode_len();
    if n < p {
        return None;
    }
    let head = s.substring_char(0, p);
    assert(head@ =~= s@.take(p as int));
    if same_text(head, prefix) {
        let tail = s.substring_char(p, n);
        assert(tail@ =~= s@.skip(p as int));
        Some(tail)
    } else {
        None
    }
}

/// The index of the first `c` in `s`.
pub open spec fn find_spec(s: Seq<char>, c: char) -> Option<int>
    decreases s.len(),
{
    if s.len() == 0 {
        None
    } else if s[0] == c {
        Some(0)
    } else {
        match find_spec(s.drop_first(), c) {
            Some(i) => Some(i + 1),
            None => None,
        }
    }
}

/// The first `c` in `s` is the one at `i`, or, where there is none before the end, there is none.
proof fn lemma_find_at(s: Seq<char>, c: char, i: int)
    requires
        0 <= i <= s.len(),
        forall|j: int| 0 <= j < i ==> s[j] != c,
        i < s.len() ==> s[i] == c,
    ensures
        find_spec(s, c) == (if i < s.len() {
            Some(i)
        } else {
            None
        }),
    decreases s.len(),
{
    if i > 0 {
        lemma_find_at(s.drop_first(), c, i - 1);
    }
}

/// The index, counted in characters, of the first `c` in `s`.
pub fn find_char(s: &str, c: char) -> (r: Option<usize>)
    ensures
        match r {
            Some(i) => i < s@.len() && find_spec(s@, c) == Some(i as int),
            None => find_spec(s@, c) is None,
        },
{
    let n: usize = s.unicode_len();
    let mut i: usize = 0;
    for d in it: s.chars()
        invariant
            it.seq() == s@,
            n == s@.len(),
            i == it.index(),
            forall|j: int| 0 <= j < i ==> s@[j] != c,
    {
        if d == c {
            proof {
                lemma_find_at(s@, c, i as int);
            }
            return Some(i);
        }
        i = i + 1;
    }
    proof {
        lemma_find_at(s@, c, i as int);
    }
    None
}

/// The number of bytes that `s` takes in UTF-8.
pub open spec fn utf8_len(s: Seq<char>) -> nat {
    encode_utf8(s).len()
}

/// The longest beginning of `s` that takes at most `max` bytes in UTF-8: `s` itself when it fits,
/// or else what is left once enough characters have been dropped from its end.
pub open spec fn truncate_spec(s: Seq<char>, max: nat) -> Seq<char>
    decreases s.len(),
{
    if s.len() == 0 || utf8_len(s) <= max {
        s
    } else {
        truncate_spec(s.drop_last(), max)
    }
}

/// The number of bytes that `c` takes in UTF-8.
fn char_width(c: char) -> (r: usize)
    ensures
        r == encode_scalar(c as u32).len(),
        1 <= r <= 4,
{
    let u: u32 = c as u32;
    if u <= 0x7f {
        1
    } else if u <= 0x7ff {
        2
    } else if u <= 0xffff {
        3
    } else {
        4
    }
}

proof fn lemma_utf8_len_push(s: Seq<char>, c: char)
    ensures
        utf8_len(s.push(c)) == utf8_len(s) + encode_scalar(c as u32).len(),
    decreases s.len(),
{
    if s.len() == 0 {
        assert(s.push(c).drop_first() =~= s);
        assert(encode_utf8(s.push(c)) =~= encode_scalar(c as u32) + encode_utf8(s));
    } else {
        lemma_utf8_len_push(s.drop_first(), c);
        assert(s.push(c).drop_first() =~= s.drop_first().push(c));
    }
}

proof fn lemma_truncate_at(s: Seq<char>, max: nat, n: int)
    requires
        0 <= n <= s.len(),
        utf8_len(s.take(n)) <= max,
        n < s.len() ==> utf8_len(s.take(n + 1)) > max,
    ensures
        truncate_spec(s, max) == s.take(n),
    decreases s.len(),
{
    if n == s.len() {
        assert(s.take(n) =~= s);
    } else {
        lemma_utf8_len_monotonic(s, n + 1);
        assert(s.drop_last().take(n) =~= s.take(n));
        if n + 1 <= s.len() - 1 {
            assert(s.drop_last().take(n + 1) =~= s.take(n + 1));
        }
        lemma_truncate_at(s.drop_last(), max, n);
    }
}

proof fn lemma_utf8_len_monotonic(s: Seq<char>, n: int)
    requires
        0 <= n <= s.len(),
    ensures
        utf8_len(s.take(n)) <= utf8_len(s),
    decreases s.len(),
{
    if n == s.len() {
        assert(s.take(n) =~= s);
    } else {
        lemma_utf8_len_monotonic(s.drop_last(), n);
        assert(s.drop_last().take(n) =~= s.take(n));
        lemma_utf8_len_push(s.drop_last(), s.last());
        assert(s.drop_last().push(s.last()) =~= s);
    }
}

/// The longest beginning of `s` that takes at most `max` bytes in UTF-8.
pub fn truncate_utf8(s: &str, max: usize) -> (r: &str)
    ensures
        r@ == truncate_spec(s@, max as nat),
{
    let n: usize = s.unicode_len();
    let mut used: usize = 0;
    let mut i: usize = 0;
    proof {
        assert(s@.take(0) =~= Seq::<char>::empty());
    }
    for c in it: s.chars()
        invariant
            it.seq() == s@,
            n == s@.len(),
            i == it.index(),
            used <= max,
            used == utf8_len(s@.take(i as int)),
    {
        let w: usize = char_width(c);
        proof {
            lemma_utf8_len_push(s@.take(i as int), c);
            assert(s@.take(i as int).push(c) =~= s@.take(i + 1));
        }
        if w > max - used {
            proof {
                lemma_truncate_at(s@, max as nat, i as int);
                assert(s@.take(i as int) =~= s@.subrange(0, i as int));
            }
            return s.substring_char(0, i);
        }
        used = used + w;
        i = i + 1;
    }
    proof {
        lemma_truncate_at(s@, max as nat, i as int);
        assert(s@.take(i as int) =~= s@);
    }
    s
}

/// What truncation keeps is a beginning of the text that fits, and the longest that does: with
/// one more character it would take too many bytes. A text that fits is kept whole.
pub proof fn law_truncate(s: Seq<char>, max: nat)
    ensures
        truncate_spec(s, max).len() <= s.len(),
        truncate_spec(s, max) == s.take(truncate_spec(s, max).len() as int),
        utf8_len(truncate_spec(s, max)) <= max,
        truncate_spec(s, max).len() < s.len() ==> utf8_len(
            s.take(truncate_spec(s, max).len() as int + 1),
        ) > max,
        (truncate_spec(s, max) == s) == (utf8_len(s) <= max),
    decreases s.len(),
{
    let kept = truncate_spec(s, max);
    if s.len() == 0 || utf8_len(s) <= max {
        assert(s.take(s.len() as int) =~= s);
    } else {
        let shorter = s.drop_last();
        law_truncate(shorter, max);
        assert(shorter.take(kept.len() as int) =~= s.take(kept.len() as int));
        if kept.len() < shorter.len() {
            assert(shorter.take(kept.len() as int + 1) =~= s.take(kept.len() as int + 1));
        } else {
            assert(s.take(kept.len() as int + 1) =~= s);
        }
    }
}

proof fn lemma_trim_start_splits(s: Seq<char>) -> (n: int)
    ensures
        0 <= n <= s.len(),
        forall|j: int| 0 <= j < n ==> is_white_space(s[j]),
        n < s.len() ==> !is_white_space(s[n]),
        trim_start_spec(s) == s.skip(n),
    decreases s.len(),
{
    if s.len() > 0 && is_white_space(s[0]) {
        let n = lemma_trim_start_splits(s.drop_first()) + 1;
        assert forall|j: int| 0 <= j < n implies is_white_space(s[j]) by {
            if j > 0 {
                assert(s.drop_first()[j - 1] == s[j]);
            }
        }
        lemma_trim_start_at(s, n);
        n
    } else {
        lemma_trim_start_at(s, 0);
        0
    }
}

pub(crate) proof fn lemma_trim_end_splits(s: Seq<char>) -> (n: int)
    ensures
        0 <= n <= s.len(),
        forall|j: int| n <= j < s.len() ==> is_white_space(s[j]),
        n > 0 ==> !is_white_space(s[n - 1]),
        trim_end_spec(s) == s.take(n),
    decreases s.len(),
{
    if s.len() > 0 && is_white_space(s.last()) {
        let n = lemma_trim_end_splits(s.drop_last());
        assert forall|j: int| n <= j < s.len() implies is_white_space(s[j]) by {
            if j < s.len() - 1 {
                assert(s.drop_last()[j] == s[j]);
            }
        }
        lemma_trim_end_at(s, n);
        n
    } else {
        lemma_trim_end_at(s, s.len() as int);
        s.len() as int
    }
}

/// Trimming takes white space away from both ends and nothing else: a trimmed text neither begins
/// nor ends with white space, and around it the text held white space alone.
pub proof fn law_trim(s: Seq<char>)
    ensures
        trim_spec(s).len() > 0 ==> !is_white_space(trim_spec(s)[0]) && !is_white_space(
            trim_spec(s).last(),
        ),
        exists|from: int, to: int|
            #![trigger s.subrange(from, to)]
            0 <= from <= to <= s.len() && trim_spec(s) == s.subrange(from, to) && (forall|j: int|
                0 <= j < from || to <= j < s.len() ==> is_white_space(#[trigger] s[j])),
{
    let from = lemma_trim_start_splits(s);
    let rest = s.skip(from);
    let kept = lemma_trim_end_splits(rest);
    let to = from + kept;
    assert(rest.take(kept) =~= s.subrange(from, to));
    assert forall|j: int| 0 <= j < from || to <= j < s.len() implies is_white_space(
        #[trigger] s[j],
    ) by {
        if to <= j < s.len() {
            assert(rest[j - from] == s[j]);
        }
    }
    if kept == 0 && from < s.len() {
        assert(is_white_space(rest[0]));
    }
}

/// Trimming a trimmed text changes nothing.
pub proof fn law_trim_twice(s: Seq<char>)
    ensures
        trim_spec(trim_spec(s)) == trim_spec(s),
{
    law_trim(s);
    let t = trim_spec(s);
    lemma_trim_start_at(t, 0);
    assert(t.skip(0) =~= t);
    lemma_trim_end_at(t, t.len() as int);
    assert(t.take(t.len() as int) =~= t);
}

/// Whether a text holds white space alone.
pub open spec fn all_white(s: Seq<char>) -> bool {
    forall|i: int| 0 <= i < s.len() ==> is_white_space(#[trigger] s[i])
}

/// Whether a text is not empty and has no white space at either end.
pub open spec fn is_core(s: Seq<char>) -> bool {
    s.len() > 0 && !is_white_space(s[0]) && !is_white_space(s[s.len() - 1])
}

/// Trimming takes the white space around a text away, and leaves nothing of white space.
pub proof fn law_trim_around(before: Seq<char>, core: Seq<char>, after: Seq<char>)
    requires
        all_white(before),
        all_white(after),
    ensures
        is_core(core) ==> trim_spec(before + core + after) == core,
        trim_spec(before) == Seq::<char>::empty(),
{
    if is_core(core) {
        let s = before + core + after;
        let n = before.len() as int;
        assert(s[n] == core[0]);
        assert forall|j: int| 0 <= j < n implies is_white_space(s[j]) by {
            assert(s[j] == before[j]);
        }
        lemma_trim_start_at(s, n);
        let rest = s.skip(n);
        let m = core.len() as int;
        assert(rest =~= core + after);
        assert forall|j: int| m <= j < rest.len() implies is_white_space(rest[j]) by {
            assert(rest[j] == after[j - m]);
        }
        lemma_trim_end_at(rest, m);
        assert(rest.take(m) =~= core);
    }
    lemma_trim_start_at(before, before.len() as int);
    assert(before.skip(before.len() as int) =~= Seq::empty());
}

/// Every text is white space alone, or a text without any at its ends between two pieces of it.
pub proof fn law_core_or_white(s: Seq<char>) -> (parts: (Seq<char>, Seq<char>, Seq<char>))
    ensures
        all_white(s) == (trim_spec(s).len() == 0),
        !all_white(s) ==> {
            &&& s == parts.0 + parts.1 + parts.2
            &&& all_white(parts.0)
            &&& is_core(parts.1)
            &&& all_white(parts.2)
        },
{
    law_trim(s);
    let (from, to) = choose|from: int, to: int|
        #![trigger s.subrange(from, to)]
        0 <= from <= to <= s.len() && trim_spec(s) == s.subrange(from, to) && (forall|j: int|
            0 <= j < from || to <= j < s.len() ==> is_white_space(#[trigger] s[j]));
    let core = s.subrange(from, to);
    if all_white(s) {
        law_trim_around(s, core, Seq::empty());
    } else if core.len() == 0 {
        assert(all_white(s));
    }
    assert(s =~= s.take(from) + core + s.skip(to));
    assert forall|i: int| 0 <= i < s.skip(to).len() implies is_white_space(
        #[trigger] s.skip(to)[i],
    ) by {
        assert(s.skip(to)[i] == s[to + i]);
    }
    (s.take(from), core, s.skip(to))
}

/// Trimming the end takes the white space there away, and nothing else.
pub proof fn law_trim_end_around(kept: Seq<char>, after: Seq<char>)
    requires
        all_white(after),
        kept.len() > 0 ==> !is_white_space(kept[kept.len() - 1]),
    ensures
        trim_end_spec(kept + after) == kept,
{
    let s = kept + after;
    let n = kept.len() as int;
    assert forall|j: int| n <= j < s.len() implies is_white_space(s[j]) by {
        assert(s[j] == after[j - n]);
    }
    lemma_trim_end_at(s, n);
    assert(s.take(n) =~= kept);
}

/// What truncation keeps, told of the bytes: the beginning that fits, when the next character
/// would no longer fit.
pub proof fn law_truncate_between(kept: Seq<char>, dropped: Seq<char>, max: nat)
    requires
        encode_utf8(kept).len() <= max,
        dropped.len() > 0 ==> encode_utf8(kept.push(dropped[0])).len() > max,
    ensures
        truncate_spec(kept + dropped, max) == kept,
        (encode_utf8(kept + dropped).len() > max) == (dropped.len() > 0),
{
    let s = kept + dropped;
    let n = kept.len() as int;
    assert(s.take(n) =~= kept);
    if dropped.len() > 0 {
        assert(s.take(n + 1) =~= kept.push(dropped[0]));
        lemma_utf8_len_monotonic(s, n + 1);
    } else {
        assert(s =~= kept);
    }
    lemma_truncate_at(s, max, n);
}

/// Every text falls into what truncation keeps and what it drops.
pub proof fn law_truncate_splits(s: Seq<char>, max: nat) -> (parts: (Seq<char>, Seq<char>))
    ensures
        s == parts.0 + parts.1,
        parts.0 == truncate_spec(s, max),
        encode_utf8(parts.0).len() <= max,
        parts.1.len() > 0 ==> encode_utf8(parts.0.push(parts.1[0])).len() > max,
{
    law_truncate(s, max);
    let n = truncate_spec(s, max).len() as int;
    assert(s =~= s.take(n) + s.skip(n));
    if n < s.len() {
        assert(s.take(n + 1) =~= s.take(n).push(s.skip(n)[0]));
    }
    (s.take(n), s.skip(n))
}

/// What is found is the first of its kind, and where nothing is found there is none.
pub proof fn law_find(s: Seq<char>, c: char)
    ensures
        match find_spec(s, c) {
            Some(i) => 0 <= i < s.len() && s[i] == c && (forall|j: int|
                0 <= j < i ==> s[j] != c),
            None => forall|j: int| 0 <= j < s.len() ==> s[j] != c,
        },
    decreases s.len(),
{
    if s.len() > 0 && s[0] != c {
        let rest = s.drop_first();
        law_find(rest, c);
        assert forall|j: int| 0 < j < s.len() implies s[j] == rest[j - 1] by {}
        match find_spec(rest, c) {
            Some(i) => {
                assert forall|j: int| 0 <= j < i + 1 implies s[j] != c by {
                    if j > 0 {
                        assert(rest[j - 1] != c);
                    }
                }
            },
            None => {
                assert forall|j: int| 0 <= j < s.len() implies s[j] != c by {
                    if j > 0 {
                        assert(rest[j - 1] != c);
                    }
                }
            },
        }
    }
}

/// What follows a prefix is what the text holds beyond it, and only a text that begins with the
/// prefix has it.
pub proof fn law_after_prefix(s: Seq<char>, prefix: Seq<char>, rest: Seq<char>)
    ensures
        (after_prefix(s, prefix) == Some(rest)) == (s == prefix + rest),
{
    if s == prefix + rest {
        assert(s.take(prefix.len() as int) =~= prefix);
        assert(s.skip(prefix.len() as int) =~= rest);
    }
    if after_prefix(s, prefix) == Some(rest) {
        assert(s =~= s.take(prefix.len() as int) + s.skip(prefix.len() as int));
    }
}

/// Whether `upper` is an ASCII capital letter and `lower` the small letter that goes with it.
pub open spec fn is_case_pair(upper: char, lower: char) -> bool {
    'A' <= upper <= 'Z' && lower as int == upper as int + 32
}

/// Texts are the same but for case when they have as many characters and each is the same in
/// both, or a letter and its capital.
pub proof fn law_ignoring_ascii_case(a: Seq<char>, b: Seq<char>)
    ensures
        same_ignoring_ascii_case(a, b) == (a.len() == b.len() && forall|i: int|
            #![trigger a[i], b[i]]
            0 <= i < a.len() ==> a[i] == b[i] || is_case_pair(a[i], b[i]) || is_case_pair(
                b[i],
                a[i],
            )),
{
    assert forall|c: char, d: char|
        (ascii_lower_spec(c) == ascii_lower_spec(d)) == (c == d || is_case_pair(c, d)
            || is_case_pair(d, c)) by {
        lemma_ascii_lower(c);
        lemma_ascii_lower(d);
    }
    if same_ignoring_ascii_case(a, b) {
        assert forall|i: int|
            #![trigger a[i], b[i]]
            0 <= i < a.len() implies a[i] == b[i] || is_case_pair(a[i], b[i]) || is_case_pair(
            b[i],
            a[i],
        ) by {
            assert(ascii_lower_spec(a[i]) == ascii_lower_spec(b[i]));
        }
    }
}

proof fn lemma_ascii_lower(c: char)
    ensures
        ascii_lower_spec(c) as int == (if 'A' <= c <= 'Z' {
            c as int + 32
        } else {
            c as int
        }),
{
}

} // verus!
