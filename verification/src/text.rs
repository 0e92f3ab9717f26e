//! Searching in strings, stated over their sequences of characters.

use vstd::prelude::*;

verus! {

/// `needle` stands in `hay` at position `i`.
pub open spec fn occurs_at(hay: Seq<char>, needle: Seq<char>, i: int) -> bool {
    &&& 0 <= i
    &&& i + needle.len() <= hay.len()
    &&& hay.subrange(i, i + needle.len()) == needle
}

/// `needle` stands somewhere in `hay`.
pub open spec fn contains_str(hay: Seq<char>, needle: Seq<char>) -> bool {
    exists|i: int| occurs_at(hay, needle, i)
}

/// `i` is the leftmost position at which `needle` stands in `hay`.
pub open spec fn is_first_occurrence(hay: Seq<char>, needle: Seq<char>, i: int) -> bool {
    &&& occurs_at(hay, needle, i)
    &&& forall|j: int| 0 <= j < i ==> !occurs_at(hay, needle, j)
}

/// The leftmost position at which `needle` stands in `hay`, if it stands there at all.
pub open spec fn first_occurrence(hay: Seq<char>, needle: Seq<char>) -> Option<int> {
    if contains_str(hay, needle) {
        Some(choose|i: int| is_first_occurrence(hay, needle, i))
    } else {
        None
    }
}

/// Two leftmost positions of the same needle are the same position.
pub proof fn lemma_first_occurrence_unique(hay: Seq<char>, needle: Seq<char>, i: int, k: int)
    requires
        is_first_occurrence(hay, needle, i),
        is_first_occurrence(hay, needle, k),
    ensures
        i == k,
{
}

/// A known leftmost position is the one that `first_occurrence` names.
pub proof fn lemma_first_occurrence_is(hay: Seq<char>, needle: Seq<char>, i: int)
    requires
        is_first_occurrence(hay, needle, i),
    ensures
        first_occurrence(hay, needle) == Some(i),
{
    assert(contains_str(hay, needle));
    let k = choose|k: int| is_first_occurrence(hay, needle, k);
    lemma_first_occurrence_unique(hay, needle, i, k);
}

/// The characters of `s`, one by one.
pub fn chars_of(s: &str) -> (chars: Vec<char>)
    ensures
        chars@ == s@,
{
    broadcast use vstd::string::group_string_axioms;

    let mut chars: Vec<char> = Vec::new();
    for c in it: s.chars()
        invariant
            it.seq() == s@,
            chars@ == it.seq().take(it.index() as int),
    {
        chars.push(c);
        assert(it.seq().take(it.index() + 1) =~= it.seq().take(it.index() as int).push(c));
    }
    assert(chars@ =~= s@);
    chars
}

/// Whether `needle` stands in `hay` at position `i`.
pub fn matches_at(hay: &Vec<char>, needle: &Vec<char>, i: usize) -> (found: bool)
    ensures
        found == occurs_at(hay@, needle@, i as int),
{
    if i > hay.len() || needle.len() > hay.len() - i {
        return false;
    }
    let mut k: usize = 0;
    while k < needle.len()
        invariant
            i + needle.len() <= hay.len(),
            k <= needle.len(),
            forall|j: int| 0 <= j < k ==> hay@[i + j] == needle@[j],
        decreases needle.len() - k,
    {
        if hay[i + k] != needle[k] {
            proof {
                let window = hay@.subrange(i as int, i + needle.len());
                assert(window[k as int] == hay@[i + k]);
            }
            return false;
        }
        k = k + 1;
    }
    assert(hay@.subrange(i as int, i + needle.len()) =~= needle@);
    true
}

/// The leftmost position at which `needle` stands in `hay`.
pub fn find_in(hay: &Vec<char>, needle: &Vec<char>) -> (found: Option<usize>)
    ensures
        match found {
            Some(i) => is_first_occurrence(hay@, needle@, i as int),
            None => !contains_str(hay@, needle@),
        },
        found is Some ==> first_occurrence(hay@, needle@) == Some(found->0 as int),
        found is None ==> first_occurrence(hay@, needle@) is None,
{
    if needle.len() > hay.len() {
        return None;
    }
    let last: usize = hay.len() - needle.len();
    let mut i: usize = 0;
    loop
        invariant
            last == hay.len() - needle.len(),
            i <= last,
            forall|j: int| 0 <= j < i ==> !occurs_at(hay@, needle@, j),
        decreases last - i,
    {
        if matches_at(hay, needle, i) {
            proof {
                lemma_first_occurrence_is(hay@, needle@, i as int);
            }
            return Some(i);
        }
        if i == last {
            return None;
        }
        i = i + 1;
    }
}

/// The leftmost character position at which `needle` stands in `hay`.
pub fn find_str(hay: &str, needle: &str) -> (found: Option<usize>)
    ensures
        match found {
            Some(i) => is_first_occurrence(hay@, needle@, i as int),
            None => !contains_str(hay@, needle@),
        },
        found is Some ==> first_occurrence(hay@, needle@) == Some(found->0 as int),
        found is None ==> first_occurrence(hay@, needle@) is None,
{
    find_in(&chars_of(hay), &chars_of(needle))
}

/// Whether `needle` stands somewhere in `hay`.
pub fn contains(hay: &str, needle: &str) -> (found: bool)
    ensures
        found == contains_str(hay@, needle@),
{
    find_str(hay, needle).is_some()
}

/// `i` is where a scan from the left for `a` or `b` stops in `s`: at the first of
/// the two characters, or at the end when neither is there.
pub open spec fn is_cut(s: Seq<char>, a: char, b: char, i: int) -> bool {
    &&& 0 <= i <= s.len()
    &&& forall|j: int| 0 <= j < i ==> s[j] != a && s[j] != b
    &&& i < s.len() ==> s[i] == a || s[i] == b
}

/// Where a scan from the left for `a` or `b` stops in `s`.
pub open spec fn cut(s: Seq<char>, a: char, b: char) -> int {
    choose|i: int| is_cut(s, a, b, i)
}

/// What stands in `s` before the first `a` or `b`: all of `s` when neither is there.
pub open spec fn before_first(s: Seq<char>, a: char, b: char) -> Seq<char> {
    s.take(cut(s, a, b))
}

/// A scan stops at one place only.
pub proof fn lemma_cut_unique(s: Seq<char>, a: char, b: char, i: int, k: int)
    requires
        is_cut(s, a, b, i),
        is_cut(s, a, b, k),
    ensures
        i == k,
{
    if i < k {
        assert(s[i] != a && s[i] != b);
    }
    if k < i {
        assert(s[k] != a && s[k] != b);
    }
}

/// Every scan stops somewhere.
pub proof fn lemma_cut_exists(s: Seq<char>, a: char, b: char)
    ensures
        is_cut(s, a, b, cut(s, a, b)),
    decreases s.len(),
{
    if s.len() == 0 {
        assert(is_cut(s, a, b, 0));
    } else {
        let front = s.drop_last();
        lemma_cut_exists(front, a, b);
        let c = cut(front, a, b);
        assert(forall|j: int| 0 <= j < front.len() ==> front[j] == s[j]);
        if c < front.len() {
            assert(is_cut(s, a, b, c));
        } else if s.last() == a || s.last() == b {
            assert(is_cut(s, a, b, c));
        } else {
            assert(is_cut(s, a, b, s.len() as int));
        }
    }
}

/// A known stopping place is the one that `cut` names.
pub proof fn lemma_cut_is(s: Seq<char>, a: char, b: char, i: int)
    requires
        is_cut(s, a, b, i),
    ensures
        cut(s, a, b) == i,
{
    lemma_cut_exists(s, a, b);
    lemma_cut_unique(s, a, b, i, cut(s, a, b));
}

/// Scans `s` from position `from` for `a` or `b` and gives the position at which the
/// scan stops.
pub fn scan_to(s: &Vec<char>, from: usize, a: char, b: char) -> (end: usize)
    requires
        from <= s@.len(),
    ensures
        from <= end <= s@.len(),
        end - from == cut(s@.skip(from as int), a, b),
        s@.subrange(from as int, end as int) == before_first(s@.skip(from as int), a, b),
{
    let ghost rest = s@.skip(from as int);
    let mut end: usize = from;
    let mut stopped = false;
    while end < s.len() && !stopped
        invariant
            rest == s@.skip(from as int),
            from <= end <= s.len(),
            forall|j: int| 0 <= j < end - from ==> rest[j] != a && rest[j] != b,
            stopped ==> end < s.len() && (rest[end - from] == a || rest[end - from] == b),
        decreases s.len() - end + if stopped { 0int } else { 1int },
    {
        let c = s[end];
        assert(rest[end - from] == c);
        if c == a || c == b {
            stopped = true;
        } else {
            end = end + 1;
        }
    }
    proof {
        assert(is_cut(rest, a, b, end - from));
        lemma_cut_is(rest, a, b, end - from);
        assert(s@.subrange(from as int, end as int) =~= rest.take(end - from));
    }
    end
}

/// `i` is the leftmost position of `c` in `s`.
pub open spec fn is_first_char(s: Seq<char>, c: char, i: int) -> bool {
    &&& 0 <= i < s.len()
    &&& s[i] == c
    &&& forall|j: int| 0 <= j < i ==> s[j] != c
}

/// `i` is the rightmost position of `c` in `s`.
pub open spec fn is_last_char(s: Seq<char>, c: char, i: int) -> bool {
    &&& 0 <= i < s.len()
    &&& s[i] == c
    &&& forall|j: int| i < j < s.len() ==> s[j] != c
}

/// The leftmost position of `c` in `s`.
pub open spec fn first_char(s: Seq<char>, c: char) -> Option<int> {
    if s.contains(c) {
        Some(choose|i: int| is_first_char(s, c, i))
    } else {
        None
    }
}

/// The rightmost position of `c` in `s`.
pub open spec fn last_char(s: Seq<char>, c: char) -> Option<int> {
    if s.contains(c) {
        Some(choose|i: int| is_last_char(s, c, i))
    } else {
        None
    }
}

/// A character that stands in `s` has a rightmost position there.
pub proof fn lemma_last_char_exists(s: Seq<char>, c: char)
    requires
        s.contains(c),
    ensures
        last_char(s, c) is Some,
        is_last_char(s, c, last_char(s, c)->0),
    decreases s.len(),
{
    if s.last() == c {
        assert(is_last_char(s, c, s.len() - 1));
    } else {
        let front = s.drop_last();
        let i = choose|i: int| 0 <= i < s.len() && s[i] == c;
        assert(front[i] == c);
        lemma_last_char_exists(front, c);
        let k = last_char(front, c)->0;
        assert(front[k] == s[k]);
        assert forall|j: int| k < j < s.len() implies s[j] != c by {
            if j < front.len() {
                assert(front[j] == s[j]);
            }
        }
        assert(is_last_char(s, c, k));
    }
}

/// A known leftmost position is the one that `first_char` names.
pub proof fn lemma_first_char_is(s: Seq<char>, c: char, i: int)
    requires
        is_first_char(s, c, i),
    ensures
        first_char(s, c) == Some(i),
{
    assert(s.contains(c));
    let k = choose|k: int| is_first_char(s, c, k);
    if i < k {
        assert(s[i] != c);
    }
    if k < i {
        assert(s[k] != c);
    }
}

/// A known rightmost position is the one that `last_char` names.
pub proof fn lemma_last_char_is(s: Seq<char>, c: char, i: int)
    requires
        is_last_char(s, c, i),
    ensures
        last_char(s, c) == Some(i),
{
    assert(s.contains(c));
    let k = choose|k: int| is_last_char(s, c, k);
    if i < k {
        assert(s[k] != c);
    }
    if k < i {
        assert(s[i] != c);
    }
}

/// The leftmost position of `c` in `s`.
pub fn find_char(s: &Vec<char>, c: char) -> (found: Option<usize>)
    ensures
        found is Some ==> first_char(s@, c) == Some(found->0 as int),
        found is None ==> first_char(s@, c) is None,
        found is Some ==> is_first_char(s@, c, found->0 as int),
{
    let mut i: usize = 0;
    while i < s.len()
        invariant
            i <= s.len(),
            forall|j: int| 0 <= j < i ==> s@[j] != c,
        decreases s.len() - i,
    {
        if s[i] == c {
            proof {
                lemma_first_char_is(s@, c, i as int);
            }
            return Some(i);
        }
        i = i + 1;
    }
    None
}

/// The rightmost position of `c` in the first `end` characters of `s`.
pub fn rfind_char(s: &Vec<char>, end: usize, c: char) -> (found: Option<usize>)
    requires
        end <= s@.len(),
    ensures
        found is Some ==> last_char(s@.take(end as int), c) == Some(found->0 as int),
        found is None ==> last_char(s@.take(end as int), c) is None,
        found is Some ==> is_last_char(s@.take(end as int), c, found->0 as int),
{
    let ghost head = s@.take(end as int);
    let mut i: usize = end;
    while i > 0
        invariant
            i <= end <= s.len(),
            head == s@.take(end as int),
            forall|j: int| i <= j < end ==> head[j] != c,
        decreases i,
    {
        i = i - 1;
        if s[i] == c {
            proof {
                assert(head[i as int] == c);
                lemma_last_char_is(head, c, i as int);
            }
            return Some(i);
        }
    }
    None
}

/// The span of `text` from its first `{` to its last `}`, both included, where the
/// first stands before the second.
pub open spec fn json_span(text: Seq<char>) -> Option<Seq<char>> {
    match (first_char(text, '{'), last_char(text, '}')) {
        (Some(open), Some(close)) => if open <= close {
            Some(text.subrange(open, close + 1))
        } else {
            None
        },
        _ => None,
    }
}

/// Cuts the JSON object out of a text that holds one among other words: what stands
/// from the first `{` to the last `}`. `None` where either brace is missing or the
/// last `}` stands before the first `{`.
pub fn extract_json(text: &str) -> (json: Option<String>)
    ensures
        json is Some <==> json_span(text@) is Some,
        json is Some ==> json->0@ == json_span(text@)->0,
{
    let chars = chars_of(text);
    assert(chars@.take(chars@.len() as int) =~= chars@);
    let start = match find_char(&chars, '{') {
        Some(i) => i,
        None => { return None; },
    };
    let end = match rfind_char(&chars, chars.len(), '}') {
        Some(i) => i,
        None => { return None; },
    };
    if start <= end {
        Some(text.substring_char(start, end + 1).to_owned())
    } else {
        None
    }
}

/// The strings of a list, each as its sequence of characters.
pub open spec fn texts(list: Seq<String>) -> Seq<Seq<char>> {
    list.map_values(|s: String| s@)
}

/// Whether two strings hold the same characters.
pub fn same_text(a: &str, b: &str) -> (same: bool)
    ensures
        same == (a@ == b@),
{
    let x = chars_of(a);
    let y = chars_of(b);
    if x.len() != y.len() {
        return false;
    }
    let same = matches_at(&x, &y, 0);
    proof {
        assert(a@ =~= a@.subrange(0, b@.len() as int));
    }
    same
}

/// The order of strings in a dictionary whose alphabet is the code points: `a` comes
/// before `b`, or is `b`.
pub open spec fn lex_le(a: Seq<char>, b: Seq<char>) -> bool
    decreases a.len(),
{
    if a.len() == 0 {
        true
    } else if b.len() == 0 {
        false
    } else if a[0] != b[0] {
        a[0] < b[0]
    } else {
        lex_le(a.drop_first(), b.drop_first())
    }
}

/// Of two strings one comes before the other, or they are the same.
pub proof fn lemma_lex_total(a: Seq<char>, b: Seq<char>)
    ensures
        lex_le(a, b) || lex_le(b, a),
    decreases a.len(),
{
    if a.len() > 0 && b.len() > 0 && a[0] == b[0] {
        lemma_lex_total(a.drop_first(), b.drop_first());
    }
}

/// What comes before a string comes before all that the string comes before.
pub proof fn lemma_lex_transitive(a: Seq<char>, b: Seq<char>, c: Seq<char>)
    requires
        lex_le(a, b),
        lex_le(b, c),
    ensures
        lex_le(a, c),
    decreases a.len(),
{
    if a.len() > 0 && b.len() > 0 && c.len() > 0 {
        if a[0] == b[0] && b[0] == c[0] {
            lemma_lex_transitive(a.drop_first(), b.drop_first(), c.drop_first());
        }
    }
}

/// Whether `a` comes before `b` in the order of `lex_le`, or is `b`.
pub fn str_le(a: &str, b: &str) -> (le: bool)
    ensures
        le == lex_le(a@, b@),
{
    let x = chars_of(a);
    let y = chars_of(b);
    let mut i: usize = 0;
    assert(x@.skip(0) =~= x@ && y@.skip(0) =~= y@);
    while i < x.len() && i < y.len()
        invariant
            x@ == a@,
            y@ == b@,
            i <= x.len(),
            i <= y.len(),
            lex_le(x@, y@) == lex_le(x@.skip(i as int), y@.skip(i as int)),
        decreases x.len() - i,
    {
        proof {
            assert(x@.skip(i as int)[0] == x@[i as int]);
            assert(y@.skip(i as int)[0] == y@[i as int]);
            assert(x@.skip(i as int).drop_first() =~= x@.skip(i + 1));
            assert(y@.skip(i as int).drop_first() =~= y@.skip(i + 1));
        }
        if x[i] != y[i] {
            return x[i] < y[i];
        }
        i = i + 1;
    }
    i == x.len()
}

/// Each string of the list comes before those that follow it.
pub open spec fn sorted(list: Seq<Seq<char>>) -> bool {
    forall|i: int, j: int| 0 <= i < j < list.len() ==> lex_le(list[i], list[j])
}

} // verus!
