//! Text as sequences of characters: the searching, splitting, joining and
//! trimming that the commands are built from.

use vstd::prelude::*;

verus! {

/// The views of a vector of strings, in order.
pub open spec fn strs(v: Seq<String>) -> Seq<Seq<char>> {
    Seq::new(v.len(), |i: int| v[i]@)
}

/// `pat` stands in `s` at index `i`.
pub open spec fn occurs_at(s: Seq<char>, pat: Seq<char>, i: int) -> bool {
    &&& 0 <= i
    &&& i + pat.len() <= s.len()
    &&& s.subrange(i, i + pat.len()) == pat
}

/// `pat` stands somewhere in `s`.
pub open spec fn occurs_in(s: Seq<char>, pat: Seq<char>) -> bool {
    exists|i: int| occurs_at(s, pat, i)
}

/// The pieces of `s` between the occurrences of `sep`. There is always at
/// least one piece; two separators in a row enclose an empty piece.
pub open spec fn split_on(s: Seq<char>, sep: char) -> Seq<Seq<char>>
    decreases s.len(),
{
    if s.len() == 0 {
        seq![Seq::<char>::empty()]
    } else {
        let before = split_on(s.drop_last(), sep);
        if s.last() == sep {
            before.push(Seq::<char>::empty())
        } else {
            before.drop_last().push(before.last().push(s.last()))
        }
    }
}

/// The pieces in order, with `sep` between each two neighbours.
pub open spec fn join_with(parts: Seq<Seq<char>>, sep: Seq<char>) -> Seq<char>
    decreases parts.len(),
{
    if parts.len() == 0 {
        Seq::<char>::empty()
    } else if parts.len() == 1 {
        parts[0]
    } else {
        join_with(parts.drop_last(), sep) + sep + parts.last()
    }
}

/// The pieces in order, with nothing between them.
pub open spec fn concat_all(parts: Seq<Seq<char>>) -> Seq<char>
    decreases parts.len(),
{
    if parts.len() == 0 {
        Seq::<char>::empty()
    } else {
        concat_all(parts.drop_last()) + parts.last()
    }
}

/// The characters of `s`, in order.
pub fn chars_of(s: &str) -> (v: Vec<char>)
    ensures
        v@ == s@,
{
    let mut v: Vec<char> = Vec::new();
    for c in it: s.chars()
        invariant
            v@ == it.seq().take(it.index() as int),
            it.seq() == s@,
    {
        v.push(c);
    }
    v
}

/// Whether two strings hold the same characters.
pub fn same_text(a: &str, b: &str) -> (r: bool)
    ensures
        r == (a@ == b@),
{
    let x = chars_of(a);
    let y = chars_of(b);
    if x.len() != y.len() {
        return false;
    }
    let mut i: usize = 0;
    while i < x.len()
        invariant
            i <= x.len(),
            x.len() == y.len(),
            x@ == a@,
            y@ == b@,
            x@.take(i as int) == y@.take(i as int),
        decreases x.len() - i,
    {
        if x[i] != y[i] {
            assert(a@[i as int] != b@[i as int]);
            return false;
        }
        assert(x@.take(i + 1) == x@.take(i as int).push(x@[i as int]));
        assert(y@.take(i + 1) == y@.take(i as int).push(y@[i as int]));
        i += 1;
    }
    assert(x@.take(x.len() as int) == x@);
    assert(y@.take(y.len() as int) == y@);
    true
}

/// Whether `pat` stands in `s` at index `i`.
pub fn matches_at(s: &Vec<char>, pat: &Vec<char>, i: usize) -> (r: bool)
    ensures
        r == occurs_at(s@, pat@, i as int),
{
    if pat.len() > s.len() || i > s.len() - pat.len() {
        return false;
    }
    let mut k: usize = 0;
    while k < pat.len()
        invariant
            k <= pat.len(),
            i + pat.len() <= s.len(),
            s@.subrange(i as int, i + k) == pat@.take(k as int),
        decreases pat.len() - k,
    {
        if s[i + k] != pat[k] {
            assert(s@.subrange(i as int, i + pat.len())[k as int] != pat@[k as int]);
            return false;
        }
        assert(s@.subrange(i as int, i + k + 1) == s@.subrange(i as int, i + k).push(
            s@[i + k],
        ));
        assert(pat@.take(k + 1) == pat@.take(k as int).push(pat@[k as int]));
        k += 1;
    }
    assert(pat@.take(pat.len() as int) == pat@);
    true
}

/// Whether `s` begins with `prefix`.
pub fn starts_with(s: &str, prefix: &str) -> (r: bool)
    ensures
        r == occurs_at(s@, prefix@, 0),
{
    let sv = chars_of(s);
    let pv = chars_of(prefix);
    matches_at(&sv, &pv, 0)
}

/// Whether `pat` stands somewhere in `s`.
pub fn contains(s: &str, pat: &str) -> (r: bool)
    ensures
        r == occurs_in(s@, pat@),
{
    let sv = chars_of(s);
    let pv = chars_of(pat);
    if pv.len() > sv.len() {
        return false;
    }
    if pv.len() == 0 {
        assert(s@.subrange(0, 0) =~= pat@);
        assert(occurs_at(s@, pat@, 0));
        return true;
    }
    let last: usize = sv.len() - pv.len();
    let mut i: usize = 0;
    while i <= last
        invariant
            i <= last + 1,
            last == sv.len() - pv.len(),
            0 < pv.len() <= sv.len(),
            sv@ == s@,
            pv@ == pat@,
            forall|j: int| 0 <= j < i ==> !occurs_at(s@, pat@, j),
        decreases last + 1 - i,
    {
        if matches_at(&sv, &pv, i) {
            return true;
        }
        i += 1;
    }
    false
}

/// The pieces of `s` between the occurrences of `sep`.
pub fn split(s: &str, sep: char) -> (parts: Vec<String>)
    ensures
        strs(parts@) == split_on(s@, sep),
{
    let cs = chars_of(s);
    let mut parts: Vec<String> = Vec::new();
    let mut start: usize = 0;
    let mut i: usize = 0;
    proof {
        assert(s@.take(0).len() == 0);
        assert(s@.subrange(0, 0) =~= Seq::<char>::empty());
        assert(strs(parts@).push(s@.subrange(0, 0)) =~= seq![Seq::<char>::empty()]);
    }
    while i < cs.len()
        invariant
            start <= i <= cs.len(),
            cs@ == s@,
            strs(parts@).push(s@.subrange(start as int, i as int)) == split_on(
                s@.take(i as int),
                sep,
            ),
        decreases cs.len() - i,
    {
        proof {
            let next = s@.take(i + 1);
            assert(next.drop_last() == s@.take(i as int));
            assert(next.last() == s@[i as int]);
            let before = split_on(s@.take(i as int), sep);
            assert(before.last() == s@.subrange(start as int, i as int));
            assert(before.drop_last() == strs(parts@));
        }
        if cs[i] == sep {
            let piece = String::from_str(s.substring_char(start, i));
            let ghost old_parts = parts@;
            parts.push(piece);
            start = i + 1;
            proof {
                assert(strs(parts@) == strs(old_parts).push(piece@));
                assert(s@.subrange(start as int, i + 1) == Seq::<char>::empty());
            }
        } else {
            proof {
                assert(s@.subrange(start as int, i + 1) == s@.subrange(
                    start as int,
                    i as int,
                ).push(s@[i as int]));
            }
        }
        i += 1;
    }
    let piece = String::from_str(s.substring_char(start, i));
    let ghost old_parts = parts@;
    parts.push(piece);
    proof {
        assert(s@.take(i as int) == s@);
        assert(strs(parts@) == strs(old_parts).push(piece@));
    }
    parts
}

/// The strings in order, with `sep` between each two neighbours.
pub fn join(parts: &Vec<String>, sep: &str) -> (r: String)
    ensures
        r@ == join_with(strs(parts@), sep@),
{
    let mut r = String::new();
    let mut i: usize = 0;
    while i < parts.len()
        invariant
            i <= parts.len(),
            r@ == join_with(strs(parts@).take(i as int), sep@),
        decreases parts.len() - i,
    {
        proof {
            let upto = strs(parts@).take(i + 1);
            assert(upto.drop_last() == strs(parts@).take(i as int));
            assert(upto.last() == parts@[i as int]@);
        }
        if i > 0 {
            r.append(sep);
        }
        r.append(parts[i].as_str());
        i += 1;
    }
    assert(strs(parts@).take(parts.len() as int) == strs(parts@));
    r
}

/// The strings in order, with nothing between them.
pub fn concat(parts: &Vec<String>) -> (r: String)
    ensures
        r@ == concat_all(strs(parts@)),
{
    let mut r = String::new();
    let mut i: usize = 0;
    while i < parts.len()
        invariant
            i <= parts.len(),
            r@ == concat_all(strs(parts@).take(i as int)),
        decreases parts.len() - i,
    {
        proof {
            let upto = strs(parts@).take(i + 1);
            assert(upto.drop_last() == strs(parts@).take(i as int));
            assert(upto.last() == parts@[i as int]@);
        }
        r.append(parts[i].as_str());
        i += 1;
    }
    assert(strs(parts@).take(parts.len() as int) == strs(parts@));
    r
}

/// What `str::to_lowercase` makes of a text.
pub uninterp spec fn lowercase_of(s: Seq<char>) -> Seq<char>;

/// Calls `str::to_lowercase`, which maps a text to its Unicode lowercase
/// form. Nothing is claimed of the result but that it depends on the text
/// alone.
#[verifier::external_body]
pub(crate) fn to_lowercase(s: &str) -> (r: String)
    ensures
        r@ == lowercase_of(s@),
{
    s.to_lowercase()
}

/// Whether a character is whitespace: whether it has the Unicode property
/// White_Space. These are the tab, the line feed, the vertical tab, the
/// form feed, the carriage return, the space, the next line, the no-break
/// space, the ogham space mark, the spaces of fixed width from the en quad
/// to the hair space, the line and the paragraph separator, the narrow
/// no-break space, the medium mathematical space and the ideographic space.
pub open spec fn char_is_whitespace(c: char) -> bool {
    let n = c as u32;
    ||| 0x0009 <= n <= 0x000D
    ||| n == 0x0020
    ||| n == 0x0085
    ||| n == 0x00A0
    ||| n == 0x1680
    ||| 0x2000 <= n <= 0x200A
    ||| n == 0x2028
    ||| n == 0x2029
    ||| n == 0x202F
    ||| n == 0x205F
    ||| n == 0x3000
}

/// Calls `char::is_whitespace`, which tells whether a character has the
/// Unicode property White_Space: whether it is one of the characters that
/// `char_is_whitespace` lists.
#[verifier::external_body]
pub(crate) fn is_whitespace(c: char) -> (r: bool)
    ensures
        r == char_is_whitespace(c),
{
    c.is_whitespace()
}

/// How many whitespace characters `s` begins with.
pub open spec fn leading_whitespace(s: Seq<char>) -> int
    decreases s.len(),
{
    if s.len() > 0 && char_is_whitespace(s.first()) {
        1 + leading_whitespace(s.drop_first())
    } else {
        0
    }
}

/// How long `s` is without the whitespace characters it ends with.
pub open spec fn len_without_trailing_whitespace(s: Seq<char>) -> int
    decreases s.len(),
{
    if s.len() > 0 && char_is_whitespace(s.last()) {
        len_without_trailing_whitespace(s.drop_last())
    } else {
        s.len() as int
    }
}

/// `s` without the whitespace it begins with.
pub open spec fn trimmed_start(s: Seq<char>) -> Seq<char> {
    s.subrange(leading_whitespace(s), s.len() as int)
}

/// `s` without the whitespace it ends with.
pub open spec fn trimmed_end(s: Seq<char>) -> Seq<char> {
    s.subrange(0, len_without_trailing_whitespace(s))
}

/// `s` without the whitespace around it.
pub open spec fn trimmed(s: Seq<char>) -> Seq<char> {
    trimmed_end(trimmed_start(s))
}

/// The leading whitespace of a text is no longer than the text.
pub proof fn lemma_leading_whitespace_bounds(s: Seq<char>)
    ensures
        0 <= leading_whitespace(s) <= s.len(),
    decreases s.len(),
{
    if s.len() > 0 && char_is_whitespace(s.first()) {
        lemma_leading_whitespace_bounds(s.drop_first());
    }
}

/// What is left without the trailing whitespace is no longer than the text.
pub proof fn lemma_trailing_whitespace_bounds(s: Seq<char>)
    ensures
        0 <= len_without_trailing_whitespace(s) <= s.len(),
    decreases s.len(),
{
    if s.len() > 0 && char_is_whitespace(s.last()) {
        lemma_trailing_whitespace_bounds(s.drop_last());
    }
}

/// What is left of a trimmed text neither begins nor ends with whitespace,
/// and is no longer than the text.
pub proof fn lemma_trimmed(s: Seq<char>)
    ensures
        trimmed(s).len() <= s.len(),
        trimmed(s).len() > 0 ==> !char_is_whitespace(trimmed(s).first()) && !char_is_whitespace(
            trimmed(s).last(),
        ),
{
    lemma_leading_whitespace_bounds(s);
    lemma_trailing_whitespace_bounds(trimmed_start(s));
    lemma_trimmed_start_first(s);
    lemma_trimmed_end_last(trimmed_start(s));
    let t = trimmed_start(s);
    if trimmed(s).len() > 0 {
        assert(trimmed(s).first() == t.first());
    }
}

proof fn lemma_trimmed_start_first(s: Seq<char>)
    ensures
        trimmed_start(s).len() > 0 ==> !char_is_whitespace(trimmed_start(s).first()),
    decreases s.len(),
{
    lemma_leading_whitespace_bounds(s);
    if s.len() > 0 && char_is_whitespace(s.first()) {
        let rest = s.drop_first();
        lemma_trimmed_start_first(rest);
        lemma_leading_whitespace_bounds(rest);
        assert(trimmed_start(s) =~= trimmed_start(rest));
    } else {
        assert(trimmed_start(s) =~= s);
    }
}

proof fn lemma_trimmed_end_last(s: Seq<char>)
    ensures
        trimmed_end(s).len() > 0 ==> !char_is_whitespace(trimmed_end(s).last()),
    decreases s.len(),
{
    lemma_trailing_whitespace_bounds(s);
    if s.len() > 0 && char_is_whitespace(s.last()) {
        let rest = s.drop_last();
        lemma_trimmed_end_last(rest);
        lemma_trailing_whitespace_bounds(rest);
        assert(trimmed_end(s) =~= trimmed_end(rest));
    } else {
        assert(trimmed_end(s) =~= s);
    }
}

/// `s` without the whitespace around it.
pub fn trim(s: &str) -> (r: String)
    ensures
        r@ == trimmed(s@),
{
    let cs = chars_of(s);
    let n = cs.len();
    let mut a: usize = 0;
    proof {
        assert(s@.skip(0) == s@);
    }
    while a < n && is_whitespace(cs[a])
        invariant
            a <= n,
            n == cs.len(),
            cs@ == s@,
            leading_whitespace(s@) == a + leading_whitespace(s@.skip(a as int)),
        decreases n - a,
    {
        proof {
            assert(s@.skip(a as int).first() == s@[a as int]);
            assert(s@.skip(a as int).drop_first() == s@.skip(a + 1));
        }
        a += 1;
    }
    proof {
        if a < n {
            assert(s@.skip(a as int).first() == s@[a as int]);
        }
        assert(leading_whitespace(s@) == a);
    }
    let ghost t = trimmed_start(s@);
    let mut b: usize = n;
    proof {
        assert(t == s@.subrange(a as int, n as int));
        assert(t.take(n - a) == t);
    }
    while b > a && is_whitespace(cs[b - 1])
        invariant
            a <= b <= n,
            n == cs.len(),
            cs@ == s@,
            t == s@.subrange(a as int, n as int),
            len_without_trailing_whitespace(t) == len_without_trailing_whitespace(t.take(b - a)),
        decreases b,
    {
        proof {
            assert(t.take(b - a).last() == s@[b - 1]);
            assert(t.take(b - a).drop_last() == t.take(b - a - 1));
        }
        b -= 1;
    }
    proof {
        if b > a {
            assert(t.take(b - a).last() == s@[b - 1]);
        }
        assert(len_without_trailing_whitespace(t) == b - a);
        assert(t.subrange(0, b - a) == s@.subrange(a as int, b as int));
    }
    String::from_str(s.substring_char(a, b))
}

/// The greatest index below `upto` at which `pat` stands in `s`, or `-1`
/// where there is none.
pub open spec fn last_occurrence(s: Seq<char>, pat: Seq<char>, upto: int) -> int
    decreases upto,
{
    if upto <= 0 {
        -1
    } else if occurs_at(s, pat, upto - 1) {
        upto - 1
    } else {
        last_occurrence(s, pat, upto - 1)
    }
}

/// What follows the last occurrence of `pat` in `s`; all of `s` where `pat`
/// does not occur.
pub open spec fn after_last(s: Seq<char>, pat: Seq<char>) -> Seq<char> {
    let i = last_occurrence(s, pat, s.len() as int + 1);
    if i < 0 {
        s
    } else {
        s.subrange(i + pat.len(), s.len() as int)
    }
}

/// `last_occurrence` is `-1` exactly where `pat` stands at no index below
/// `upto`; otherwise `pat` stands at it and at no index between it and
/// `upto`.
pub proof fn lemma_last_occurrence(s: Seq<char>, pat: Seq<char>, upto: int)
    ensures
        -1 <= last_occurrence(s, pat, upto),
        last_occurrence(s, pat, upto) < upto || upto <= 0,
        last_occurrence(s, pat, upto) >= 0 ==> occurs_at(s, pat, last_occurrence(s, pat, upto)),
        forall|j: int|
            last_occurrence(s, pat, upto) < j < upto && 0 <= j ==> !occurs_at(s, pat, j),
    decreases upto,
{
    if upto > 0 && !occurs_at(s, pat, upto - 1) {
        lemma_last_occurrence(s, pat, upto - 1);
    }
}

/// Indices at which `pat` does not stand may be left out of the search.
pub proof fn lemma_last_occurrence_skip(s: Seq<char>, pat: Seq<char>, lo: int, hi: int)
    requires
        0 <= lo <= hi,
        forall|j: int| lo <= j < hi ==> !occurs_at(s, pat, j),
    ensures
        last_occurrence(s, pat, hi) == last_occurrence(s, pat, lo),
    decreases hi - lo,
{
    if lo < hi {
        assert(!occurs_at(s, pat, hi - 1));
        lemma_last_occurrence_skip(s, pat, lo, hi - 1);
    }
}

/// What follows the last occurrence of `pat` in `s`; all of `s` where `pat`
/// does not occur.
pub fn text_after_last(s: &str, pat: &str) -> (r: String)
    ensures
        r@ == after_last(s@, pat@),
{
    let sv = chars_of(s);
    let pv = chars_of(pat);
    let n = sv.len();
    let m = pv.len();
    if m > n {
        proof {
            lemma_last_occurrence_skip(s@, pat@, 0, n + 1);
        }
        return String::from_str(s);
    }
    if m == 0 {
        proof {
            assert(s@.subrange(n as int, n as int) =~= pat@);
            assert(occurs_at(s@, pat@, n as int));
        }
        return String::from_str(s.substring_char(n, n));
    }
    let mut upto: usize = n - m + 1;
    proof {
        lemma_last_occurrence_skip(s@, pat@, upto as int, n + 1);
    }
    while upto > 0
        invariant
            upto <= n - m + 1,
            0 < m <= n,
            n == sv.len(),
            m == pv.len(),
            sv@ == s@,
            pv@ == pat@,
            last_occurrence(s@, pat@, n + 1) == last_occurrence(s@, pat@, upto as int),
        decreases upto,
    {
        if matches_at(&sv, &pv, upto - 1) {
            return String::from_str(s.substring_char(upto - 1 + m, n));
        }
        upto -= 1;
    }
    String::from_str(s)
}

/// The words of `s`: its longest runs of characters that are no
/// whitespace, in order.
pub open spec fn words(s: Seq<char>) -> Seq<Seq<char>>
    decreases s.len(),
{
    if s.len() == 0 {
        Seq::empty()
    } else {
        let before = words(s.drop_last());
        if char_is_whitespace(s.last()) {
            before
        } else if s.len() >= 2 && !char_is_whitespace(s[s.len() - 2]) {
            before.drop_last().push(before.last().push(s.last()))
        } else {
            before.push(seq![s.last()])
        }
    }
}

/// The words of `s`: its longest runs of characters that are no
/// whitespace, in order.
pub fn split_whitespace(s: &str) -> (parts: Vec<String>)
    ensures
        strs(parts@) == words(s@),
{
    let cs = chars_of(s);
    let mut parts: Vec<String> = Vec::new();
    let mut start: usize = 0;
    let mut in_word: bool = false;
    let mut i: usize = 0;
    proof {
        assert(s@.take(0).len() == 0);
        assert(strs(parts@) =~= Seq::<Seq<char>>::empty());
    }
    while i < cs.len()
        invariant
            start <= i <= cs.len(),
            cs@ == s@,
            in_word ==> start < i,
            in_word == (i > 0 && !char_is_whitespace(s@[i - 1])),
            in_word ==> strs(parts@).push(s@.subrange(start as int, i as int)) == words(
                s@.take(i as int),
            ),
            !in_word ==> strs(parts@) == words(s@.take(i as int)),
        decreases cs.len() - i,
    {
        proof {
            let next = s@.take(i + 1);
            assert(next.drop_last() == s@.take(i as int));
            assert(next.last() == s@[i as int]);
            if i > 0 {
                assert(next[next.len() - 2] == s@[i - 1]);
            }
        }
        let space = is_whitespace(cs[i]);
        if space {
            if in_word {
                let piece = String::from_str(s.substring_char(start, i));
                let ghost old_parts = parts@;
                parts.push(piece);
                proof {
                    assert(strs(parts@) =~= strs(old_parts).push(piece@));
                }
                in_word = false;
            }
        } else {
            if in_word {
                proof {
                    let before = words(s@.take(i as int));
                    assert(before.last() == s@.subrange(start as int, i as int));
                    assert(before.drop_last() =~= strs(parts@));
                    assert(s@.subrange(start as int, i + 1) =~= s@.subrange(
                        start as int,
                        i as int,
                    ).push(s@[i as int]));
                }
            } else {
                start = i;
                in_word = true;
                proof {
                    assert(s@.subrange(i as int, i + 1) =~= seq![s@[i as int]]);
                }
            }
        }
        i += 1;
    }
    proof {
        assert(s@.take(i as int) == s@);
    }
    if in_word {
        let piece = String::from_str(s.substring_char(start, i));
        let ghost old_parts = parts@;
        parts.push(piece);
        proof {
            assert(strs(parts@) =~= strs(old_parts).push(piece@));
        }
    }
    parts
}

/// Puts a copy of `s` behind the strings of `v`.
pub fn push_text(v: &mut Vec<String>, s: &str)
    ensures
        strs(final(v)@) == strs(old(v)@).push(s@),
{
    let ghost before = v@;
    v.push(String::from_str(s));
    assert(strs(v@) =~= strs(before).push(s@));
}

/// Puts the strings of `more` behind the strings of `v`.
pub fn push_all(v: &mut Vec<String>, more: Vec<String>)
    ensures
        strs(final(v)@) == strs(old(v)@) + strs(more@),
{
    let ghost before = v@;
    let ghost added = more@;
    let mut more = more;
    v.append(&mut more);
    assert(v@ == before + added);
    assert(strs(v@) =~= strs(before) + strs(added));
}

/// `s` from index `i` on, with `with` in place of each occurrence of
/// `pat`; the occurrences are taken from the left, and none overlaps the
/// one before it. An empty `pat` occurs nowhere.
pub open spec fn replaced_from(s: Seq<char>, pat: Seq<char>, with: Seq<char>, i: int) -> Seq<char>
    decreases s.len() - i,
{
    if i >= s.len() || i < 0 {
        Seq::empty()
    } else if pat.len() > 0 && occurs_at(s, pat, i) {
        with + replaced_from(s, pat, with, i + pat.len())
    } else {
        seq![s[i]] + replaced_from(s, pat, with, i + 1)
    }
}

/// `s` with `with` in place of each occurrence of `pat`.
pub open spec fn replaced(s: Seq<char>, pat: Seq<char>, with: Seq<char>) -> Seq<char> {
    replaced_from(s, pat, with, 0)
}

/// `s` with `with` in place of each occurrence of `pat`.
pub fn replace_all(s: &str, pat: &str, with: &str) -> (r: String)
    ensures
        r@ == replaced(s@, pat@, with@),
{
    let sv = chars_of(s);
    let pv = chars_of(pat);
    let n = sv.len();
    let m = pv.len();
    let mut out = String::new();
    let mut kept: usize = 0;
    let mut i: usize = 0;
    proof {
        assert(out@ + s@.subrange(0, 0) + replaced_from(s@, pat@, with@, 0) =~= replaced(
            s@,
            pat@,
            with@,
        ));
    }
    while i < n
        invariant
            kept <= i <= n,
            n == sv.len(),
            m == pv.len(),
            sv@ == s@,
            pv@ == pat@,
            out@ + s@.subrange(kept as int, i as int) + replaced_from(s@, pat@, with@, i as int)
                == replaced(s@, pat@, with@),
        decreases n - i,
    {
        if m > 0 && matches_at(&sv, &pv, i) {
            let ghost before = out@;
            out.append(s.substring_char(kept, i));
            out.append(with);
            proof {
                assert(before + s@.subrange(kept as int, i as int) + (with@ + replaced_from(
                    s@,
                    pat@,
                    with@,
                    i + m,
                )) =~= out@ + s@.subrange(i + m, i + m) + replaced_from(s@, pat@, with@, i + m));
            }
            i = i + m;
            kept = i;
        } else {
            proof {
                assert(out@ + s@.subrange(kept as int, i as int) + (seq![s@[i as int]]
                    + replaced_from(s@, pat@, with@, i + 1)) =~= out@ + s@.subrange(
                    kept as int,
                    i + 1,
                ) + replaced_from(s@, pat@, with@, i + 1));
            }
            i += 1;
        }
    }
    proof {
        assert(out@ + s@.subrange(kept as int, n as int) + Seq::<char>::empty() =~= out@
            + s@.subrange(kept as int, n as int));
    }
    out.append(s.substring_char(kept, n));
    out
}

/// The character of a decimal digit.
pub open spec fn digit_char(d: nat) -> char {
    if d == 0 {
        '0'
    } else if d == 1 {
        '1'
    } else if d == 2 {
        '2'
    } else if d == 3 {
        '3'
    } else if d == 4 {
        '4'
    } else if d == 5 {
        '5'
    } else if d == 6 {
        '6'
    } else if d == 7 {
        '7'
    } else if d == 8 {
        '8'
    } else {
        '9'
    }
}

/// A number in decimal digits, without leading zeros; zero is `0`.
pub open spec fn decimal(n: nat) -> Seq<char>
    decreases n,
{
    if n < 10 {
        seq![digit_char(n)]
    } else {
        decimal(n / 10).push(digit_char(n % 10))
    }
}

/// The text of a decimal digit.
pub fn digit_text(d: u64) -> (r: &'static str)
    requires
        d < 10,
    ensures
        r@ == seq![digit_char(d as nat)],
{
    proof {
        reveal_strlit("0");
        reveal_strlit("1");
        reveal_strlit("2");
        reveal_strlit("3");
        reveal_strlit("4");
        reveal_strlit("5");
        reveal_strlit("6");
        reveal_strlit("7");
        reveal_strlit("8");
        reveal_strlit("9");
    }
    let r = if d == 0 {
        "0"
    } else if d == 1 {
        "1"
    } else if d == 2 {
        "2"
    } else if d == 3 {
        "3"
    } else if d == 4 {
        "4"
    } else if d == 5 {
        "5"
    } else if d == 6 {
        "6"
    } else if d == 7 {
        "7"
    } else if d == 8 {
        "8"
    } else {
        "9"
    };
    assert(r@ =~= seq![digit_char(d as nat)]);
    r
}

/// A number in decimal digits.
pub fn decimal_text(n: u64) -> (r: String)
    ensures
        r@ == decimal(n as nat),
    decreases n,
{
    if n < 10 {
        String::from_str(digit_text(n))
    } else {
        let mut r = decimal_text(n / 10);
        r.append(digit_text(n % 10));
        assert(r@ =~= decimal((n / 10) as nat).push(digit_char((n % 10) as nat)));
        r
    }
}

} // verus!
