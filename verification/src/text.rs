//! Text primitives shared by the analysis and generation modules: character
//! views of strings, non-overlapping pattern counting, containment, equality,
//! decimal rendering and joining, each with a mathematical statement over
//! `Seq<char>`.
use vstd::prelude::*;
use vstd::string::*;

verus! {

/// `pat` occurs in `text` starting at position `i`.
pub open spec fn matches_at(text: Seq<char>, pat: Seq<char>, i: int) -> bool {
    &&& 0 <= i
    &&& i + pat.len() <= text.len()
    &&& text.subrange(i, i + pat.len()) == pat
}

/// Number of non-overlapping occurrences of a non-empty `pat` in `text` at or
/// after position `i`, found by scanning left to right and resuming after
/// each match.
pub open spec fn occurrences_from(text: Seq<char>, pat: Seq<char>, i: int) -> nat
    decreases text.len() - i,
{
    if pat.len() == 0 || i < 0 || i + pat.len() > text.len() {
        0
    } else if matches_at(text, pat, i) {
        1 + occurrences_from(text, pat, i + pat.len())
    } else {
        occurrences_from(text, pat, i + 1)
    }
}

/// Number of non-overlapping occurrences of `pat` in `text`, as
/// `str::matches(..).count()` yields it: the empty pattern matches at every
/// one of the `len + 1` positions between characters.
pub open spec fn occurrences(text: Seq<char>, pat: Seq<char>) -> nat {
    if pat.len() == 0 {
        text.len() + 1
    } else {
        occurrences_from(text, pat, 0)
    }
}

/// `pat` occurs somewhere in `text`.
pub open spec fn contains_seq(text: Seq<char>, pat: Seq<char>) -> bool {
    exists|i: int| matches_at(text, pat, i)
}

/// `text` begins with `prefix`.
pub open spec fn starts_with_seq(text: Seq<char>, prefix: Seq<char>) -> bool {
    matches_at(text, prefix, 0)
}

/// The ASCII digit character for `d < 10`.
pub open spec fn digit_char(d: nat) -> char {
    (48 + d) as char
}

/// Decimal rendering of `n`, most significant digit first, no leading zeros.
pub open spec fn decimal(n: nat) -> Seq<char>
    decreases n,
{
    if n < 10 {
        seq![digit_char(n)]
    } else {
        decimal(n / 10) + seq![digit_char(n % 10)]
    }
}

/// `items` joined with `sep` between consecutive items.
pub open spec fn join(items: Seq<Seq<char>>, sep: Seq<char>) -> Seq<char>
    decreases items.len(),
{
    if items.len() == 0 {
        Seq::empty()
    } else if items.len() == 1 {
        items[0]
    } else {
        join(items.drop_last(), sep) + sep + items.last()
    }
}

/// The character views of a sequence of strings.
pub open spec fn views(items: Seq<String>) -> Seq<Seq<char>> {
    items.map_values(|s: String| s@)
}

/// Every non-empty-pattern count is bounded by the room left for matches.
pub proof fn lemma_occurrences_from_bound(text: Seq<char>, pat: Seq<char>, i: int)
    requires
        pat.len() > 0,
        0 <= i <= text.len(),
    ensures
        occurrences_from(text, pat, i) <= text.len() - i,
    decreases text.len() - i,
{
    if i + pat.len() > text.len() {
    } else if matches_at(text, pat, i) {
        lemma_occurrences_from_bound(text, pat, i + pat.len());
    } else {
        lemma_occurrences_from_bound(text, pat, i + 1);
    }
}

/// The positions at which the left-to-right scan of `occurrences_from`
/// records a match.
pub open spec fn match_starts(text: Seq<char>, pat: Seq<char>, i: int) -> Set<int>
    decreases text.len() - i,
{
    if pat.len() == 0 || i < 0 || i + pat.len() > text.len() {
        Set::empty()
    } else if matches_at(text, pat, i) {
        match_starts(text, pat, i + pat.len()).insert(i)
    } else {
        match_starts(text, pat, i + 1)
    }
}

/// Neither pattern is a prefix of the other: they disagree at some shared
/// position, so they can never match at the same place.
pub open spec fn prefix_free(p: Seq<char>, q: Seq<char>) -> bool {
    exists|k: int| 0 <= k < p.len() && k < q.len() && p[k] != q[k]
}

/// A list of non-empty patterns, pairwise prefix-free.
pub open spec fn distinct_patterns(pats: Seq<Seq<char>>) -> bool {
    &&& forall|a: int| 0 <= a < pats.len() ==> #[trigger] pats[a].len() > 0
    &&& forall|a: int, b: int|
        0 <= a < pats.len() && 0 <= b < pats.len() && a != b ==> prefix_free(
            #[trigger] pats[a],
            #[trigger] pats[b],
        )
}

/// Sum of the occurrence counts of every pattern of `pats` in `text`.
pub open spec fn total_occurrences(text: Seq<char>, pats: Seq<Seq<char>>) -> nat
    decreases pats.len(),
{
    if pats.len() == 0 {
        0
    } else {
        total_occurrences(text, pats.drop_last()) + occurrences(text, pats.last())
    }
}

/// Union of the recorded match positions of every pattern of `pats`.
pub open spec fn all_match_starts(text: Seq<char>, pats: Seq<Seq<char>>) -> Set<int>
    decreases pats.len(),
{
    if pats.len() == 0 {
        Set::empty()
    } else {
        all_match_starts(text, pats.drop_last()) + match_starts(text, pats.last(), 0)
    }
}

/// The recorded match positions are finite, as many as the count, and each
/// is a real match at or after `i`.
pub proof fn lemma_match_starts(text: Seq<char>, pat: Seq<char>, i: int)
    requires
        pat.len() > 0,
        0 <= i,
    ensures
        match_starts(text, pat, i).finite(),
        match_starts(text, pat, i).len() == occurrences_from(text, pat, i),
        forall|e: int|
            #[trigger] match_starts(text, pat, i).contains(e) ==> i <= e && matches_at(
                text,
                pat,
                e,
            ),
    decreases text.len() - i,
{
    if i + pat.len() > text.len() {
    } else if matches_at(text, pat, i) {
        lemma_match_starts(text, pat, i + pat.len());
        assert(!match_starts(text, pat, i + pat.len()).contains(i));
    } else {
        lemma_match_starts(text, pat, i + 1);
    }
}

/// Two prefix-free patterns never match at the same position.
pub proof fn lemma_prefix_free_exclusive(text: Seq<char>, p: Seq<char>, q: Seq<char>, e: int)
    requires
        prefix_free(p, q),
    ensures
        !(matches_at(text, p, e) && matches_at(text, q, e)),
{
    if matches_at(text, p, e) && matches_at(text, q, e) {
        let k = choose|k: int| 0 <= k < p.len() && k < q.len() && p[k] != q[k];
        assert(text.subrange(e, e + p.len())[k] == text[e + k]);
        assert(text.subrange(e, e + q.len())[k] == text[e + k]);
    }
}

/// Patterns that disagree at a position both reach are prefix-free, both
/// ways round.
pub proof fn lemma_differ_at(p: Seq<char>, q: Seq<char>, k: int)
    requires
        0 <= k < p.len(),
        k < q.len(),
        p[k] != q[k],
    ensures
        prefix_free(p, q),
        prefix_free(q, p),
{
}

/// For pairwise prefix-free patterns, the counts add up to at most the
/// length of the text: every position starts at most one recorded match.
pub proof fn lemma_total_occurrences_bound(text: Seq<char>, pats: Seq<Seq<char>>)
    requires
        distinct_patterns(pats),
    ensures
        all_match_starts(text, pats).finite(),
        all_match_starts(text, pats).len() == total_occurrences(text, pats),
        forall|e: int|
            #[trigger] all_match_starts(text, pats).contains(e) ==> exists|j: int|
                0 <= j < pats.len() && matches_at(text, #[trigger] pats[j], e),
        total_occurrences(text, pats) <= text.len(),
    decreases pats.len(),
{
    if pats.len() > 0 {
        let init = pats.drop_last();
        let last = pats.last();
        assert(distinct_patterns(init)) by {
            assert forall|a: int, b: int|
                0 <= a < init.len() && 0 <= b < init.len() && a != b implies prefix_free(
                #[trigger] init[a],
                #[trigger] init[b],
            ) by {
                assert(init[a] == pats[a] && init[b] == pats[b]);
            }
        }
        lemma_total_occurrences_bound(text, init);
        assert(last == pats[pats.len() - 1]);
        lemma_match_starts(text, last, 0);
        let s1 = all_match_starts(text, init);
        let s2 = match_starts(text, last, 0);
        assert(s1.disjoint(s2)) by {
            assert forall|e: int| !(s1.contains(e) && s2.contains(e)) by {
                if s1.contains(e) && s2.contains(e) {
                    let j = choose|j: int| 0 <= j < init.len() && matches_at(text, init[j], e);
                    assert(init[j] == pats[j]);
                    assert(prefix_free(pats[j], pats[pats.len() - 1]));
                    lemma_prefix_free_exclusive(text, pats[j], last, e);
                }
            }
        }
        vstd::set_lib::lemma_set_disjoint_lens(s1, s2);
        assert forall|e: int| #[trigger] (s1 + s2).contains(e) implies exists|j: int|
            0 <= j < pats.len() && matches_at(text, #[trigger] pats[j], e) by {
            if s1.contains(e) {
                let j = choose|j: int| 0 <= j < init.len() && matches_at(text, init[j], e);
                assert(init[j] == pats[j]);
            } else {
                assert(matches_at(text, pats[pats.len() - 1], e));
            }
        }
        let range = vstd::set_lib::set_int_range(0, text.len() as int);
        vstd::set_lib::lemma_int_range(0, text.len() as int);
        assert((s1 + s2).subset_of(range)) by {
            assert forall|e: int| #[trigger] (s1 + s2).contains(e) implies range.contains(e) by {
                let j = choose|j: int| 0 <= j < pats.len() && matches_at(text, pats[j], e);
                assert(pats[j].len() > 0);
            }
        }
        vstd::set_lib::lemma_len_subset(s1 + s2, range);
    }
}

/// The characters of `s`, in order.
pub fn chars_of(s: &str) -> (v: Vec<char>)
    ensures
        v@ == s@,
{
    let mut v: Vec<char> = Vec::new();
    for c in it: s.chars()
        invariant
            it.seq() == s@,
            v@ == s@.take(it.index() as int),
    {
        v.push(c);
    }
    v
}

/// Whether `pat` occurs in `text` at position `i`.
pub fn matches_at_exec(text: &Vec<char>, pat: &Vec<char>, i: usize) -> (b: bool)
    ensures
        b == matches_at(text@, pat@, i as int),
{
    if i > text.len() || pat.len() > text.len() - i {
        return false;
    }
    let mut j: usize = 0;
    while j < pat.len()
        invariant
            i + pat@.len() <= text.len(),
            j <= pat@.len(),
            forall|k: int| 0 <= k < j ==> text@[i + k] == pat@[k],
        decreases pat@.len() - j,
    {
        assert(i + j < text@.len());
        if text[i + j] != pat[j] {
            assert(text@.subrange(i as int, i + pat@.len())[j as int] != pat@[j as int]);
            return false;
        }
        j = j + 1;
    }
    assert(text@.subrange(i as int, i + pat@.len()) =~= pat@);
    true
}

/// Number of non-overlapping occurrences of `pat` in `text`.
pub fn count_occurrences(text: &Vec<char>, pat: &Vec<char>) -> (n: usize)
    requires
        pat@.len() > 0 || text@.len() < usize::MAX,
    ensures
        n == occurrences(text@, pat@),
{
    if pat.len() == 0 {
        return text.len() + 1;
    }
    let mut i: usize = 0;
    let mut n: usize = 0;
    while i < text.len() && pat.len() <= text.len() - i
        invariant
            pat@.len() > 0,
            i <= text@.len(),
            n <= i,
            n + occurrences_from(text@, pat@, i as int) == occurrences_from(text@, pat@, 0),
        decreases text@.len() - i,
    {
        if matches_at_exec(text, pat, i) {
            n = n + 1;
            i = i + pat.len();
        } else {
            i = i + 1;
        }
    }
    n
}

/// Whether `pat` occurs somewhere in `text`.
pub fn contains_chars(text: &Vec<char>, pat: &Vec<char>) -> (b: bool)
    ensures
        b == contains_seq(text@, pat@),
{
    if pat.len() == 0 {
        assert(matches_at(text@, pat@, 0)) by {
            assert(text@.subrange(0, 0) =~= pat@);
        }
        return true;
    }
    if pat.len() > text.len() {
        assert forall|i: int| !matches_at(text@, pat@, i) by {}
        return false;
    }
    let last = text.len() - pat.len();
    let mut i: usize = 0;
    while i <= last
        invariant
            pat@.len() > 0,
            last + pat@.len() == text.len(),
            i <= last + 1,
            forall|k: int| 0 <= k < i ==> !matches_at(text@, pat@, k),
        decreases last + 1 - i,
    {
        if matches_at_exec(text, pat, i) {
            return true;
        }
        i = i + 1;
    }
    assert forall|k: int| !matches_at(text@, pat@, k) by {
        if 0 <= k && k + pat@.len() <= text@.len() {
            assert(k <= last);
        }
    }
    false
}

/// Whether `pat` occurs somewhere in `text`, as `str::contains` answers it.
pub fn contains_text(text: &str, pat: &str) -> (b: bool)
    ensures
        b == contains_seq(text@, pat@),
{
    let t = chars_of(text);
    let p = chars_of(pat);
    contains_chars(&t, &p)
}

/// Whether `text` begins with `prefix`.
pub fn starts_with_text(text: &str, prefix: &str) -> (b: bool)
    ensures
        b == starts_with_seq(text@, prefix@),
{
    let t = chars_of(text);
    let p = chars_of(prefix);
    matches_at_exec(&t, &p, 0)
}

/// Whether two strings hold the same characters.
pub fn same_text(a: &str, b: &str) -> (r: bool)
    ensures
        r == (a@ == b@),
{
    let x = chars_of(a);
    let y = chars_of(b);
    if x.len() != y.len() {
        return false;
    }
    let mut i: usize = 0;
    while i < x.len()
        invariant
            x@ == a@,
            y@ == b@,
            x@.len() == y@.len(),
            i <= x@.len(),
            forall|k: int| 0 <= k < i ==> x@[k] == y@[k],
        decreases x@.len() - i,
    {
        if x[i] != y[i] {
            assert(a@[i as int] != b@[i as int]);
            return false;
        }
        i = i + 1;
    }
    assert(x@ =~= y@);
    true
}

/// Whether `name` is one of `options`.
pub fn text_in(name: &str, options: &Vec<&str>) -> (b: bool)
    ensures
        b == options@.map_values(|p: &str| p@).contains(name@),
{
    let ghost opts = options@.map_values(|p: &str| p@);
    let mut i: usize = 0;
    while i < options.len()
        invariant
            opts == options@.map_values(|p: &str| p@),
            i <= options@.len(),
            forall|k: int| 0 <= k < i ==> opts[k] != name@,
        decreases options@.len() - i,
    {
        if same_text(options[i], name) {
            assert(opts[i as int] == name@);
            return true;
        }
        i = i + 1;
    }
    false
}

/// The one-character string of the digit `d`.
pub fn digit_text(d: usize) -> (s: &'static str)
    requires
        d < 10,
    ensures
        s@ == seq![digit_char(d as nat)],
{
    proof {
        reveal_strlit("0");
        reveal_strlit("1");
        reveal_strlit("2");
        reveal_strlit("3");
        reveal_strlit("4");
        reveal_strlit("5");
        reveal_strlit("6");
        reveal_strlit("7");
        reveal_strlit("8");
        reveal_strlit("9");
    }
    if d == 0 {
        "0"
    } else if d == 1 {
        "1"
    } else if d == 2 {
        "2"
    } else if d == 3 {
        "3"
    } else if d == 4 {
        "4"
    } else if d == 5 {
        "5"
    } else if d == 6 {
        "6"
    } else if d == 7 {
        "7"
    } else if d == 8 {
        "8"
    } else {
        "9"
    }
}

/// Decimal rendering of `n`.
pub fn decimal_text(n: usize) -> (s: String)
    ensures
        s@ == decimal(n as nat),
    decreases n,
{
    if n < 10 {
        String::from_str(digit_text(n))
    } else {
        let mut s = decimal_text(n / 10);
        s.append(digit_text(n % 10));
        s
    }
}

/// Decimal rendering of a 64-bit `n`.
pub fn decimal_text_u64(n: u64) -> (s: String)
    ensures
        s@ == decimal(n as nat),
    decreases n,
{
    if n < 10 {
        String::from_str(digit_text(n as usize))
    } else {
        let mut s = decimal_text_u64(n / 10);
        s.append(digit_text((n % 10) as usize));
        s
    }
}

/// `items` joined with `sep`.
pub fn join_texts(items: &Vec<String>, sep: &str) -> (s: String)
    ensures
        s@ == join(views(items@), sep@),
{
    let ghost all = views(items@);
    let mut s = String::from_str("");
    proof {
        reveal_strlit("");
        assert(all.take(0) =~= Seq::<Seq<char>>::empty());
    }
    let mut i: usize = 0;
    while i < items.len()
        invariant
            all == views(items@),
            i <= items@.len(),
            s@ == join(all.take(i as int), sep@),
        decreases items@.len() - i,
    {
        proof {
            assert(all.take(i + 1).drop_last() =~= all.take(i as int));
            assert(all.take(i + 1).last() == items@[i as int]@);
        }
        if i > 0 {
            s.append(sep);
        } else {
            assert(all.take(1) =~= seq![items@[0]@]);
        }
        s.append(items[i].as_str());
        i = i + 1;
    }
    assert(all.take(items@.len() as int) =~= all);
    s
}

} // verus!
