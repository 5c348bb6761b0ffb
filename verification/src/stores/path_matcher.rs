//! Path patterns with `*` wildcards, and the matcher that a route carries.

use vstd::prelude::*;

use crate::text::{chars_of, texts};

verus! {

/// Whether `path` as a whole fits `pattern`: a `*` in the pattern stands for
/// any run of characters, the empty one included, and every other character
/// stands for itself.
pub open spec fn pattern_matches(pattern: Seq<char>, path: Seq<char>) -> bool
    decreases pattern.len(), path.len(),
{
    if pattern.len() == 0 {
        path.len() == 0
    } else if pattern[0] == '*' {
        pattern_matches(pattern.drop_first(), path) || (path.len() > 0 && pattern_matches(
            pattern,
            path.drop_first(),
        ))
    } else {
        path.len() > 0 && path[0] == pattern[0] && pattern_matches(
            pattern.drop_first(),
            path.drop_first(),
        )
    }
}

/// Whether a matcher with these patterns lets `path` through: one without
/// patterns lets every path through, any other asks that some pattern fits.
pub open spec fn admits(patterns: Seq<Seq<char>>, path: Seq<char>) -> bool {
    patterns.len() == 0 || exists|i: int|
        0 <= i < patterns.len() && pattern_matches(#[trigger] patterns[i], path)
}

proof fn lemma_skip_step<T>(s: Seq<T>, i: int)
    requires
        0 <= i < s.len(),
    ensures
        s.skip(i).len() == s.len() - i,
        s.skip(i)[0] == s[i],
        s.skip(i).drop_first() == s.skip(i + 1),
{
    assert(s.skip(i).drop_first() =~= s.skip(i + 1));
}

/// Decides `pattern_matches` for two strings.
pub fn pattern_matches_path(pattern: &str, path: &str) -> (matched: bool)
    ensures
        matched == pattern_matches(pattern@, path@),
{
    let p: Vec<char> = chars_of(pattern);
    let s: Vec<char> = chars_of(path);
    let m: usize = p.len();
    let n: usize = s.len();
    // row[j] tells whether the rest of the path from j fits the rest of the
    // pattern from i; it starts with i at the pattern's end.
    let mut row: Vec<bool> = Vec::new();
    let mut j: usize = 0;
    while j < n
        invariant
            j <= n,
            n == s.len(),
            row.len() == j,
            forall|k: int| 0 <= k < j ==> row[k] == pattern_matches(p@.skip(m as int), s@.skip(k)),
            m == p.len(),
        decreases n - j,
    {
        assert(s@.skip(j as int).len() > 0);
        row.push(false);
        j += 1;
    }
    row.push(true);
    let mut i: usize = m;
    while i > 0
        invariant
            i <= m,
            m == p.len(),
            n == s.len(),
            row.len() == n + 1,
            forall|k: int| 0 <= k <= n ==> row[k] == pattern_matches(p@.skip(i as int), s@.skip(k)),
        decreases i,
    {
        i -= 1;
        let c: char = p[i];
        let mut next: Vec<bool> = Vec::new();
        let mut f: usize = 0;
        while f < n
            invariant
                f <= n,
                next.len() == f,
            decreases n - f,
        {
            next.push(false);
            f += 1;
        }
        next.push(false);
        let mut k: usize = n + 1;
        while k > 0
            invariant
                k <= n + 1,
                i < m,
                m == p.len(),
                n == s.len(),
                c == p[i as int],
                row.len() == n + 1,
                next.len() == n + 1,
                forall|q: int|
                    0 <= q <= n ==> row[q] == pattern_matches(p@.skip(i + 1), s@.skip(q)),
                forall|q: int|
                    k <= q <= n ==> next[q] == pattern_matches(p@.skip(i as int), s@.skip(q)),
            decreases k,
        {
            k -= 1;
            proof {
                lemma_skip_step(p@, i as int);
                if k < n {
                    lemma_skip_step(s@, k as int);
                }
            }
            let fits: bool = if c == '*' {
                row[k] || (k < n && next[k + 1])
            } else {
                k < n && s[k] == c && row[k + 1]
            };
            next.set(k, fits);
        }
        row = next;
    }
    assert(p@.skip(0) =~= p@);
    assert(s@.skip(0) =~= s@);
    row[0]
}

/// The path patterns of a route, in the order they were given.
#[derive(Clone, Debug, PartialEq, Eq)]
pub struct PathMatcher {
    patterns: Vec<String>,
}

impl View for PathMatcher {
    type V = Seq<Seq<char>>;

    closed spec fn view(&self) -> Seq<Seq<char>> {
        texts(self.patterns@)
    }
}

impl PathMatcher {
    /// A matcher without patterns, which lets every path through.
    pub fn new() -> (matcher: PathMatcher)
        ensures
            matcher@ == Seq::<Seq<char>>::empty(),
    {
        let matcher = PathMatcher { patterns: Vec::new() };
        assert(matcher@ =~= Seq::<Seq<char>>::empty());
        matcher
    }

    /// Replaces the matcher's patterns by `patterns`.
    pub fn with_pattern(&mut self, patterns: Vec<String>)
        ensures
            final(self)@ == texts(patterns@),
    {
        self.patterns = patterns;
    }

    /// The patterns, in order.
    pub fn patterns(&self) -> (patterns: &Vec<String>)
        ensures
            texts(patterns@) == self@,
    {
        &self.patterns
    }

    /// Whether the matcher lets `path` through.
    pub fn matches(&self, path: &str) -> (matched: bool)
        ensures
            matched == admits(self@, path@),
    {
        if self.patterns.len() == 0 {
            return true;
        }
        let mut i: usize = 0;
        while i < self.patterns.len()
            invariant
                i <= self.patterns.len(),
                forall|q: int| 0 <= q < i ==> !pattern_matches(#[trigger] self@[q], path@),
            decreases self.patterns.len() - i,
        {
            if pattern_matches_path(self.patterns[i].as_str(), path) {
                assert(self@[i as int] == self.patterns@[i as int]@);
                return true;
            }
            assert(self@[i as int] == self.patterns@[i as int]@);
            i += 1;
        }
        false
    }
}

} // verus!
