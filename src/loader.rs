use vstd::prelude::*;
use crate::harness::Sample;

verus! {

/// Directory names joined by `/`, outermost first.
pub open spec fn join_segments(segs: Seq<Seq<char>>) -> Seq<char>
    decreases segs.len(),
{
    if segs.len() == 0 {
        Seq::empty()
    } else if segs.len() == 1 {
        segs[0]
    } else {
        join_segments(segs.drop_last()) + "/"@ + segs.last()
    }
}

pub open spec fn segment_views(dirs: Seq<String>) -> Seq<Seq<char>> {
    Seq::new(dirs.len(), |k: int| dirs[k]@)
}

/// The category label of a sample: the names of the directories between the corpus
/// root and the file, joined by `/`.
pub fn category_of(dirs: &Vec<String>) -> (r: String)
    ensures
        r@ == join_segments(segment_views(dirs@)),
{
    let mut s = String::new();
    let mut i: usize = 0;
    while i < dirs.len()
        invariant
            i <= dirs@.len(),
            s@ == join_segments(segment_views(dirs@).subrange(0, i as int)),
        decreases dirs@.len() - i,
    {
        let ghost prev = segment_views(dirs@).subrange(0, i as int);
        let ghost next = segment_views(dirs@).subrange(0, i + 1);
        assert(next.drop_last() =~= prev);
        if i > 0 {
            s.append("/");
        } else {
            assert(s@ =~= Seq::<char>::empty());
        }
        s.append(dirs[i].as_str());
        i = i + 1;
        assert(s@ =~= join_segments(next));
    }
    assert(segment_views(dirs@).subrange(0, i as int) =~= segment_views(dirs@));
    s
}

/// The metadata line by which a sample declares that it must not parse.
pub open spec fn failure_marker() -> Seq<char> {
    "expect_parse_failure = true"@
}

/// `pattern` occurs in `text` at index `i`.
pub open spec fn occurs_at(text: Seq<char>, pattern: Seq<char>, i: int) -> bool {
    0 <= i && i + pattern.len() <= text.len() && text.subrange(i, i + pattern.len()) == pattern
}

/// `pattern` occurs somewhere in `text`.
pub open spec fn occurs_in(text: Seq<char>, pattern: Seq<char>) -> bool {
    exists|i: int| #[trigger] occurs_at(text, pattern, i)
}

fn matches_at(text: &str, pattern: &str, i: usize) -> (r: bool)
    requires
        i + pattern@.len() <= text@.len() <= usize::MAX,
    ensures
        r == occurs_at(text@, pattern@, i as int),
{
    let n = pattern.unicode_len();
    let mut j: usize = 0;
    while j < n
        invariant
            n == pattern@.len(),
            i + n <= text@.len() <= usize::MAX,
            j <= n,
            forall|k: int| 0 <= k < j ==> text@[i + k] == pattern@[k],
        decreases n - j,
    {
        if text.get_char(i + j) != pattern.get_char(j) {
            assert(text@.subrange(i as int, i + n)[j as int] != pattern@[j as int]);
            return false;
        }
        j = j + 1;
    }
    assert(text@.subrange(i as int, i + n) =~= pattern@);
    true
}

/// Whether `pattern` occurs in `text`.
pub fn contains_text(text: &str, pattern: &str) -> (r: bool)
    ensures
        r == occurs_in(text@, pattern@),
{
    let n = text.unicode_len();
    let m = pattern.unicode_len();
    if m > n {
        assert forall|i: int| !#[trigger] occurs_at(text@, pattern@, i) by {}
        return false;
    }
    let last = n - m;
    let mut i: usize = 0;
    loop
        invariant
            n == text@.len(),
            m == pattern@.len(),
            last == n - m,
            i <= last,
            forall|k: int| 0 <= k < i ==> !#[trigger] occurs_at(text@, pattern@, k),
        decreases last - i,
    {
        if matches_at(text, pattern, i) {
            return true;
        }
        if i == last {
            assert forall|k: int| !#[trigger] occurs_at(text@, pattern@, k) by {
                if 0 <= k < i {
                }
            }
            return false;
        }
        i = i + 1;
    }
}

impl Sample {
    /// A sample read from `path`, in `category`. Its text declares whether it is
    /// meant to be rejected by the parser.
    pub fn read(path: String, category: String, text: String) -> (r: Sample)
        ensures
            r.path@ == path@,
            r.category@ == category@,
            r.text is Some,
            r.text.unwrap()@ == text@,
            r.expect_parse_failure == occurs_in(text@, failure_marker()),
    {
        let expect = contains_text(text.as_str(), "expect_parse_failure = true");
        Sample { path, category, text: Some(text), expect_parse_failure: expect }
    }

    /// A sample whose file could not be read.
    pub fn unreadable(path: String, category: String) -> (r: Sample)
        ensures
            r.path@ == path@,
            r.category@ == category@,
            r.text is None,
            !r.expect_parse_failure,
    {
        Sample { path, category, text: None, expect_parse_failure: false }
    }
}

/// The sample is kept by a run limited to `filter`: every sample when there is no
/// filter, else those whose category is exactly the filter.
pub fn in_category(s: &Sample, filter: &Option<String>) -> (r: bool)
    ensures
        r == match *filter {
            None => true,
            Some(c) => s.category@ == c@,
        },
{
    match filter {
        None => true,
        Some(c) => s.category == *c,
    }
}

} // verus!
