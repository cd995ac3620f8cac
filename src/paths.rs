use vstd::prelude::*;
use crate::text::push_char;

verus! {

broadcast use vstd::string::group_string_axioms;

/// The installation that a path belongs to.
#[derive(Debug, Copy, Clone, PartialEq, Eq, Structural)]
pub enum PathOwner {
    DAS,
    Xentry,
}

/// The directory marker that starts the installation-relative part of a
/// Windows path.
pub open spec fn owner_marker(owner: PathOwner) -> Seq<char> {
    match owner {
        PathOwner::DAS => "DAS\\"@,
        PathOwner::Xentry => "Xentry\\"@,
    }
}

/// Whether `m` occurs in `s` at position `i`.
pub open spec fn occurs_at(s: Seq<char>, m: Seq<char>, i: int) -> bool {
    0 <= i && i + m.len() <= s.len() && s.subrange(i, i + m.len()) == m
}

/// Position of the first occurrence of `m` in `s` at or after `i`.
pub open spec fn find_from(s: Seq<char>, m: Seq<char>, i: int) -> Option<int>
    decreases s.len() + 1 - i,
{
    if i < 0 || i + m.len() > s.len() {
        None
    } else if occurs_at(s, m, i) {
        Some(i)
    } else {
        find_from(s, m, i + 1)
    }
}

/// The text between the first occurrence of `m` and the next one (or the
/// end): the second piece of `s` split at `m`.
pub open spec fn second_piece(s: Seq<char>, m: Seq<char>) -> Option<Seq<char>> {
    match find_from(s, m, 0) {
        None => None,
        Some(f) => {
            let from = f + m.len();
            match find_from(s, m, from) {
                None => Some(s.subrange(from, s.len() as int)),
                Some(g) => Some(s.subrange(from, g)),
            }
        },
    }
}

/// Backslashes turned into slashes.
pub open spec fn unix_separators(s: Seq<char>) -> Seq<char> {
    s.map_values(|c: char| if c == '\\' { '/' } else { c })
}

/// A relative path appended to a base directory, as a path join does it:
/// an absolute path or an empty base leaves the path alone.
pub open spec fn join_path(base: Seq<char>, rel: Seq<char>) -> Seq<char> {
    if base.len() == 0 || (rel.len() > 0 && rel[0] == '/') {
        rel
    } else if base.last() == '/' {
        base + rel
    } else {
        base + seq!['/'] + rel
    }
}

/// The local form of an installation's Windows path under a base directory.
pub open spec fn local_path(base: Seq<char>, owner: PathOwner, full_path: Seq<char>) -> Option<Seq<char>> {
    match second_piece(full_path, owner_marker(owner)) {
        None => None,
        Some(rel) => Some(join_path(base, unix_separators(rel))),
    }
}

fn occurs_at_exec(s: &str, m: &str, i: usize) -> (r: bool)
    requires
        s@.len() <= usize::MAX,
    ensures
        r == occurs_at(s@, m@, i as int),
{
    let n = s.unicode_len();
    let k = m.unicode_len();
    if i > n || k > n - i {
        return false;
    }
    let mut j: usize = 0;
    while j < k
        invariant
            n == s@.len(),
            k == m@.len(),
            i + k <= n,
            j <= k,
            forall|q: int| 0 <= q < j ==> s@[i + q] == m@[q],
        decreases k - j,
    {
        if s.get_char(i + j) != m.get_char(j) {
            assert(s@.subrange(i as int, i + k)[j as int] != m@[j as int]);
            return false;
        }
        j = j + 1;
    }
    assert(s@.subrange(i as int, i + k) =~= m@);
    true
}

fn find_from_exec(s: &str, m: &str, from: usize) -> (r: Option<usize>)
    ensures
        match r {
            Some(i) => find_from(s@, m@, from as int) == Some(i as int),
            None => find_from(s@, m@, from as int) is None,
        },
{
    let n = s.unicode_len();
    let k = m.unicode_len();
    let mut i: usize = from;
    while i <= n
        invariant
            n == s@.len(),
            k == m@.len(),
            from <= i,
            find_from(s@, m@, from as int) == find_from(s@, m@, i as int),
        decreases n + 1 - i,
    {
        if occurs_at_exec(s, m, i) {
            return Some(i);
        }
        if k > n - i {
            return None;
        }
        if i == n {
            proof {
                assert(s@.subrange(i as int, i as int) =~= m@);
            }
            return None;
        }
        i = i + 1;
    }
    None
}

fn to_unix_separators(s: &str) -> (r: String)
    ensures
        r@ == unix_separators(s@),
{
    let n = s.unicode_len();
    let mut out = String::new();
    let mut i: usize = 0;
    while i < n
        invariant
            n == s@.len(),
            i <= n,
            out@ == unix_separators(s@.subrange(0, i as int)),
        decreases n - i,
    {
        let c = s.get_char(i);
        push_char(&mut out, if c == '\\' { '/' } else { c });
        assert(unix_separators(s@.subrange(0, i + 1)) =~= unix_separators(s@.subrange(0, i as int)).push(
            if c == '\\' { '/' } else { c },
        ));
        i = i + 1;
    }
    assert(s@.subrange(0, n as int) =~= s@);
    out
}

/// Installation directories of the two products, set once at start-up and
/// handed to what needs them.
#[derive(Debug, Clone)]
pub struct PathConfig {
    das_path: String,
    xentry_path: String,
}

impl PathConfig {
    pub closed spec fn base(&self, owner: PathOwner) -> Seq<char> {
        match owner {
            PathOwner::DAS => self.das_path@,
            PathOwner::Xentry => self.xentry_path@,
        }
    }

    /// A configuration with both directories empty.
    pub fn new() -> (r: Self)
        ensures
            r.base(PathOwner::DAS).len() == 0,
            r.base(PathOwner::Xentry).len() == 0,
    {
        PathConfig { das_path: String::new(), xentry_path: String::new() }
    }

    pub fn set_das_path(&mut self, p: &str)
        ensures
            final(self).base(PathOwner::DAS) == p@,
            final(self).base(PathOwner::Xentry) == old(self).base(PathOwner::Xentry),
    {
        self.das_path = p.to_string();
    }

    pub fn set_xentry_path(&mut self, p: &str)
        ensures
            final(self).base(PathOwner::Xentry) == p@,
            final(self).base(PathOwner::DAS) == old(self).base(PathOwner::DAS),
    {
        self.xentry_path = p.to_string();
    }

    /// Maps a Windows path inside an installation (`...\DAS\a\b`) to the same
    /// file under the configured local directory; `None` when the path does
    /// not pass through the installation's directory.
    pub fn create_local_path(&self, owner: PathOwner, full_path: &str) -> (r: Option<String>)
        ensures
            match r {
                Some(p) => local_path(self.base(owner), owner, full_path@) == Some(p@),
                None => local_path(self.base(owner), owner, full_path@) is None,
            },
    {
        let marker = match owner {
            PathOwner::DAS => "DAS\\",
            PathOwner::Xentry => "Xentry\\",
        };
        let base = match owner {
            PathOwner::DAS => &self.das_path,
            PathOwner::Xentry => &self.xentry_path,
        };
        let n = full_path.unicode_len();
        let k = marker.unicode_len();
        proof {
            lemma_find_from_occurs(full_path@, marker@, 0);
        }
        let first = match find_from_exec(full_path, marker, 0) {
            None => {
                return None;
            },
            Some(f) => f,
        };
        let from = first + k;
        proof {
            lemma_find_from_occurs(full_path@, marker@, from as int);
        }
        let to = match find_from_exec(full_path, marker, from) {
            None => n,
            Some(g) => g,
        };
        let rel = to_unix_separators(full_path.substring_char(from, to));
        let rel_str = rel.as_str();
        let absolute = rel_str.unicode_len() > 0 && rel_str.get_char(0) == '/';
        let bn = base.as_str().unicode_len();
        let mut out = String::new();
        if bn == 0 || absolute {
            out.append(rel_str);
        } else {
            out.append(base.as_str());
            if base.as_str().get_char(bn - 1) != '/' {
                push_char(&mut out, '/');
            }
            out.append(rel_str);
        }
        Some(out)
    }
}

/// Where `find_from` finds something, the text occurs there, after the start.
pub proof fn lemma_find_from_occurs(s: Seq<char>, m: Seq<char>, i: int)
    ensures
        find_from(s, m, i) matches Some(f) ==> occurs_at(s, m, f) && i <= f,
    decreases s.len() + 1 - i,
{
    if i >= 0 && i + m.len() <= s.len() && !occurs_at(s, m, i) {
        lemma_find_from_occurs(s, m, i + 1);
    }
}

} // verus!
