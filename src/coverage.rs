//! Line coverage: for each source file, a set of line numbers (executed ones, or
//! executable ones), and how two such maps merge.

use vstd::prelude::*;
use crate::text::{has_prefix, starts_with, same_text};

verus! {

/// The line numbers recorded for one file.
#[derive(Debug, Clone)]
pub struct FileLines {
    pub file: String,
    pub lines: Vec<i32>,
}

/// Holds the line numbers for each file
///
/// Either which have been executed, or which line numbers are reachable
#[derive(Debug, Clone)]
pub struct Lines {
    /// One entry per file
    pub files: Vec<FileLines>,
}

/// Some entry of `s` is for the file `k`.
pub open spec fn has_file(s: Seq<FileLines>, k: Seq<char>) -> bool {
    exists|i: int| 0 <= i < s.len() && #[trigger] s[i].file@ == k
}

/// The map from file to line set that the entries `s` stand for.
pub open spec fn lines_map(s: Seq<FileLines>) -> Map<Seq<char>, Set<i32>> {
    Map::new(
        |k: Seq<char>| has_file(s, k),
        |k: Seq<char>| s[choose|i: int| 0 <= i < s.len() && #[trigger] s[i].file@ == k].lines@.to_set(),
    )
}

/// No two entries are for the same file, and no entry repeats a line.
pub open spec fn entries_wf(s: Seq<FileLines>) -> bool {
    &&& forall|i: int, j: int| 0 <= i < s.len() && 0 <= j < s.len() && i != j ==> s[i].file@ != s[j].file@
    &&& forall|i: int| 0 <= i < s.len() ==> ascending((#[trigger] s[i]).lines@)
}

/// The lines of `k` in `m`, none when `m` has no entry for it.
pub open spec fn lines_of(m: Map<Seq<char>, Set<i32>>, k: Seq<char>) -> Set<i32> {
    if m.contains_key(k) {
        m[k]
    } else {
        Set::empty()
    }
}

/// Union on matching file keys.
pub open spec fn merged(a: Map<Seq<char>, Set<i32>>, b: Map<Seq<char>, Set<i32>>) -> Map<Seq<char>, Set<i32>> {
    Map::new(
        |k: Seq<char>| a.contains_key(k) || b.contains_key(k),
        |k: Seq<char>| lines_of(a, k).union(lines_of(b, k)),
    )
}

impl View for Lines {
    type V = Map<Seq<char>, Set<i32>>;

    open spec fn view(&self) -> Map<Seq<char>, Set<i32>> {
        lines_map(self.files@)
    }
}

proof fn lemma_lookup(s: Seq<FileLines>, i: int)
    requires
        entries_wf(s),
        0 <= i < s.len(),
    ensures
        lines_map(s).contains_key(s[i].file@),
        lines_map(s)[s[i].file@] == s[i].lines@.to_set(),
{
    let k = s[i].file@;
    assert(has_file(s, k));
    let j = choose|j: int| 0 <= j < s.len() && #[trigger] s[j].file@ == k;
    assert(j == i);
}

fn contains_line(v: &Vec<i32>, x: i32) -> (r: bool)
    ensures
        r == v@.contains(x),
{
    let mut i: usize = 0;
    while i < v.len()
        invariant
            i <= v.len(),
            forall|j: int| 0 <= j < i ==> v@[j] != x,
        decreases v.len() - i,
    {
        if v[i] == x {
            return true;
        }
        i = i + 1;
    }
    false
}

/// The line numbers rise strictly: sorted, and no line twice.
pub open spec fn ascending(s: Seq<i32>) -> bool {
    forall|i: int, j: int| 0 <= i < j < s.len() ==> s[i] < s[j]
}

/// Put `x` into the ascending lines `v`, where it belongs, unless it is there already.
fn insert_line(v: &mut Vec<i32>, x: i32)
    requires
        ascending(old(v)@),
    ensures
        ascending(final(v)@),
        final(v)@.to_set() == old(v)@.to_set().insert(x),
{
    let ghost before = v@;
    let mut p: usize = 0;
    while p < v.len() && v[p] < x
        invariant
            p <= v@.len(),
            v@ == before,
            forall|j: int| 0 <= j < p ==> v@[j] < x,
        decreases v.len() - p,
    {
        p = p + 1;
    }
    if p < v.len() && v[p] == x {
        proof {
            assert(v@.to_set() =~= before.to_set().insert(x)) by {
                assert(before.contains(x) ) by { assert(before[p as int] == x); }
            }
        }
        return;
    }
    proof {
        assert forall|j: int| p <= j < before.len() implies x < before[j] by {
            assert(before[p as int] >= x);
            if j > p {
                assert(before[p as int] < before[j]);
            }
        }
    }
    v.insert(p, x);
    proof {
        let after = v@;
        assert(after =~= before.subrange(0, p as int).push(x) + before.subrange(p as int, before.len() as int));
        assert forall|i: int, j: int| 0 <= i < j < after.len() implies after[i] < after[j] by {
            if i < p && j < p {
                assert(after[i] == before[i] && after[j] == before[j]);
            } else if i < p && j == p {
                assert(after[i] == before[i]);
            } else if i < p {
                assert(after[i] == before[i] && after[j] == before[j - 1]);
                assert(before[i] < x);
            } else if i == p {
                assert(after[j] == before[j - 1]);
            } else {
                assert(after[i] == before[i - 1] && after[j] == before[j - 1]);
            }
        }
        assert forall|y: i32| after.contains(y) <==> before.contains(y) || y == x by {
            if after.contains(y) {
                let j = choose|j: int| 0 <= j < after.len() && after[j] == y;
                if j < p {
                    assert(before[j] == y);
                } else if j > p {
                    assert(before[j - 1] == y);
                }
            }
            if before.contains(y) {
                let j = choose|j: int| 0 <= j < before.len() && before[j] == y;
                if j < p {
                    assert(after[j] == y);
                } else {
                    assert(after[j + 1] == y);
                }
            }
            if y == x {
                assert(after[p as int] == x);
            }
        }
        assert(after.to_set() =~= before.to_set().insert(x));
    }
}

/// Add to `v` the lines of `new` that it does not hold yet.
fn union_into(v: &mut Vec<i32>, new: &Vec<i32>)
    requires
        ascending(old(v)@),
    ensures
        ascending(final(v)@),
        final(v)@.to_set() == old(v)@.to_set().union(new@.to_set()),
{
    let ghost start = v@.to_set();
    let mut i: usize = 0;
    while i < new.len()
        invariant
            i <= new.len(),
            ascending(v@),
            v@.to_set() == start.union(new@.subrange(0, i as int).to_set()),
        decreases new.len() - i,
    {
        let x = new[i];
        insert_line(v, x);
        proof {
            assert(new@.subrange(0, i + 1) =~= new@.subrange(0, i as int).push(x));
            new@.subrange(0, i as int).lemma_push_to_set_commute(x);
            assert(v@.to_set() =~= start.union(new@.subrange(0, i + 1).to_set()));
        }
        i = i + 1;
    }
    proof {
        assert(new@.subrange(0, new.len() as int) =~= new@);
    }
}

impl Lines {
    /// No file has two entries, and each entry's lines rise strictly.
    pub open spec fn wf(&self) -> bool {
        entries_wf(self.files@)
    }

    /// Whether no file has two entries and each entry's lines rise strictly.
    pub fn is_wf(&self) -> (r: bool)
        ensures
            r == self.wf(),
    {
        let n = self.files.len();
        let mut i: usize = 0;
        while i < n
            invariant
                n == self.files@.len(),
                i <= n,
                forall|a: int, b: int| 0 <= a < i && 0 <= b < n && a != b ==> self.files@[a].file@ != self.files@[b].file@,
                forall|a: int| 0 <= a < i ==> ascending((#[trigger] self.files@[a]).lines@),
            decreases n - i,
        {
            let mut j: usize = 0;
            while j < n
                invariant
                    n == self.files@.len(),
                    i < n,
                    j <= n,
                    forall|b: int| 0 <= b < j && b != i ==> self.files@[i as int].file@ != self.files@[b].file@,
                decreases n - j,
            {
                if j != i && same_text(self.files[i].file.as_str(), self.files[j].file.as_str()) {
                    return false;
                }
                j = j + 1;
            }
            let lines = &self.files[i].lines;
            let mut k: usize = 1;
            while k < lines.len()
                invariant
                    i < n,
                    n == self.files@.len(),
                    lines@ == self.files@[i as int].lines@,
                    1 <= k,
                    k <= lines@.len() || lines@.len() == 0,
                    forall|a: int, b: int| 0 <= a < b < k && b < lines@.len() ==> lines@[a] < lines@[b],
                decreases lines@.len() - k,
            {
                if lines[k - 1] >= lines[k] {
                    proof {
                        assert(!ascending(self.files@[i as int].lines@));
                    }
                    return false;
                }
                proof {
                    assert forall|a: int, b: int| 0 <= a < b < k + 1 && b < lines@.len() implies lines@[a] < lines@[b] by {
                        if b == k && a < k - 1 {
                            assert(lines@[a] < lines@[k - 1]);
                        }
                    }
                }
                k = k + 1;
            }
            proof {
                assert(ascending(self.files@[i as int].lines@));
            }
            i = i + 1;
        }
        true
    }

    /// No lines for any file.
    pub fn new() -> (r: Self)
        ensures
            r.wf(),
            r@ == Map::<Seq<char>, Set<i32>>::empty(),
    {
        let r = Lines { files: Vec::new() };
        assert(r@ =~= Map::<Seq<char>, Set<i32>>::empty());
        r
    }

    fn find_file(&self, file: &str) -> (r: Option<usize>)
        requires
            self.wf(),
        ensures
            r.is_some() == self@.contains_key(file@),
            r.is_some() ==> r.unwrap() < self.files@.len() && self.files@[r.unwrap() as int].file@ == file@,
    {
        let mut i: usize = 0;
        while i < self.files.len()
            invariant
                i <= self.files.len(),
                forall|j: int| 0 <= j < i ==> self.files@[j].file@ != file@,
            decreases self.files.len() - i,
        {
            if same_text(self.files[i].file.as_str(), file) {
                return Some(i);
            }
            i = i + 1;
        }
        None
    }

    /// The lines recorded for `file`, if it has an entry.
    pub fn get_lines(&self, file: &str) -> (r: Option<&Vec<i32>>)
        requires
            self.wf(),
        ensures
            r.is_some() == self@.contains_key(file@),
            r.is_some() ==> r.unwrap()@.to_set() == self@[file@] && ascending(r.unwrap()@),
    {
        match self.find_file(file) {
            Some(i) => {
                proof {
                    lemma_lookup(self.files@, i as int);
                }
                Some(&self.files[i].lines)
            },
            None => None,
        }
    }

    /// Record `lines` for `file`, joining them to what it already holds.
    pub fn add_file(&mut self, file: &str, lines: &Vec<i32>)
        requires
            old(self).wf(),
        ensures
            final(self).wf(),
            final(self)@ == old(self)@.insert(file@, lines_of(old(self)@, file@).union(lines@.to_set())),
    {
        let ghost old_files = self.files@;
        match self.find_file(file) {
            Some(i) => {
                let mut entry = FileLines { file: String::new(), lines: Vec::new() };
                std::mem::swap(&mut entry, &mut self.files[i]);
                proof {
                    lemma_lookup(old_files, i as int);
                    assert(ascending(old_files[i as int].lines@));
                }
                union_into(&mut entry.lines, lines);
                self.files.set(i, entry);
                proof {
                    let s = self.files@;
                    assert(s =~= old_files.update(i as int, entry));
                    assert forall|a: int, b: int| 0 <= a < s.len() && 0 <= b < s.len() && a != b implies s[a].file@ != s[b].file@ by {
                        assert(old_files[a].file@ != old_files[b].file@);
                    }
                    assert forall|a: int| 0 <= a < s.len() implies ascending((#[trigger] s[a]).lines@) by {
                        assert(ascending(old_files[a].lines@));
                    }
                    assert(entries_wf(s));
                    let m = lines_map(s);
                    let want = lines_map(old_files).insert(file@, lines_of(lines_map(old_files), file@).union(lines@.to_set()));
                    assert forall|k: Seq<char>| m.contains_key(k) <==> want.contains_key(k) by {
                        if has_file(s, k) {
                            let j = choose|j: int| 0 <= j < s.len() && #[trigger] s[j].file@ == k;
                            assert(old_files[j].file@ == k);
                        }
                        if has_file(old_files, k) {
                            let j = choose|j: int| 0 <= j < old_files.len() && #[trigger] old_files[j].file@ == k;
                            assert(s[j].file@ == k);
                        }
                    }
                    assert forall|k: Seq<char>| m.contains_key(k) implies m[k] == want[k] by {
                        let j = choose|j: int| 0 <= j < s.len() && #[trigger] s[j].file@ == k;
                        lemma_lookup(s, j);
                        lemma_lookup(old_files, j);
                    }
                    assert(m =~= want);
                }
            },
            None => {
                let mut fresh: Vec<i32> = Vec::new();
                union_into(&mut fresh, lines);
                let entry = FileLines { file: file.to_owned(), lines: fresh };
                self.files.push(entry);
                proof {
                    let s = self.files@;
                    let n = old_files.len() as int;
                    assert(s =~= old_files.push(entry));
                    assert(fresh@.to_set() =~= lines@.to_set());
                    assert forall|a: int, b: int| 0 <= a < s.len() && 0 <= b < s.len() && a != b implies s[a].file@ != s[b].file@ by {
                        if a < n && b < n {
                            assert(old_files[a].file@ != old_files[b].file@);
                        } else if a < n {
                            assert(has_file(old_files, s[a].file@));
                        } else {
                            assert(has_file(old_files, s[b].file@));
                        }
                    }
                    assert forall|a: int| 0 <= a < s.len() implies ascending((#[trigger] s[a]).lines@) by {
                        if a < n {
                            assert(ascending(old_files[a].lines@));
                        }
                    }
                    assert(entries_wf(s));
                    let m = lines_map(s);
                    let want = lines_map(old_files).insert(file@, lines_of(lines_map(old_files), file@).union(lines@.to_set()));
                    assert(lines_of(lines_map(old_files), file@) == Set::<i32>::empty());
                    assert forall|k: Seq<char>| m.contains_key(k) <==> want.contains_key(k) by {
                        if has_file(s, k) {
                            let j = choose|j: int| 0 <= j < s.len() && #[trigger] s[j].file@ == k;
                            if j < n {
                                assert(old_files[j].file@ == k);
                            }
                        }
                        if has_file(old_files, k) {
                            let j = choose|j: int| 0 <= j < old_files.len() && #[trigger] old_files[j].file@ == k;
                            assert(s[j].file@ == k);
                        }
                        if k == file@ {
                            assert(s[n].file@ == k);
                        }
                    }
                    assert forall|k: Seq<char>| m.contains_key(k) implies m[k] == want[k] by {
                        let j = choose|j: int| 0 <= j < s.len() && #[trigger] s[j].file@ == k;
                        lemma_lookup(s, j);
                        if j < n {
                            lemma_lookup(old_files, j);
                        }
                    }
                    assert(m =~= want);
                }
            },
        }
    }
}

proof fn lemma_prefix_push(s: Seq<FileLines>, i: int)
    requires
        entries_wf(s),
        0 <= i < s.len(),
    ensures
        !lines_map(s.subrange(0, i)).contains_key(s[i].file@),
        lines_map(s.subrange(0, i + 1)) == lines_map(s.subrange(0, i)).insert(s[i].file@, s[i].lines@.to_set()),
{
    let p = s.subrange(0, i);
    let q = s.subrange(0, i + 1);
    assert(entries_wf(q));
    assert(entries_wf(p));
    if has_file(p, s[i].file@) {
        let j = choose|j: int| 0 <= j < p.len() && #[trigger] p[j].file@ == s[i].file@;
        assert(s[j].file@ == s[i].file@);
    }
    let want = lines_map(p).insert(s[i].file@, s[i].lines@.to_set());
    assert forall|k: Seq<char>| lines_map(q).contains_key(k) <==> want.contains_key(k) by {
        if has_file(q, k) {
            let j = choose|j: int| 0 <= j < q.len() && #[trigger] q[j].file@ == k;
            if j < i {
                assert(p[j].file@ == k);
            }
        }
        if has_file(p, k) {
            let j = choose|j: int| 0 <= j < p.len() && #[trigger] p[j].file@ == k;
            assert(q[j].file@ == k);
        }
        if k == s[i].file@ {
            assert(q[i].file@ == k);
        }
    }
    assert forall|k: Seq<char>| #[trigger] lines_map(q).contains_key(k) implies lines_map(q)[k] == want[k] by {
        let j = choose|j: int| 0 <= j < q.len() && #[trigger] q[j].file@ == k;
        lemma_lookup(q, j);
        if j < i {
            lemma_lookup(p, j);
        }
    }
    assert(lines_map(q) =~= want);
}

/// Merging is a union on matching file keys: it does not depend on the order of the two
/// maps, and merging a map that is already merged in changes nothing.
pub proof fn lemma_merge_laws(a: Map<Seq<char>, Set<i32>>, b: Map<Seq<char>, Set<i32>>)
    ensures
        merged(a, b) == merged(b, a),
        merged(a, a) == a,
        merged(merged(a, b), b) == merged(a, b),
{
    assert(merged(a, b) =~= merged(b, a)) by {
        assert forall|k: Seq<char>| #[trigger] merged(a, b).contains_key(k) implies merged(a, b)[k] == merged(b, a)[k] by {
            assert(lines_of(a, k).union(lines_of(b, k)) =~= lines_of(b, k).union(lines_of(a, k)));
        }
    }
    assert(merged(a, a) =~= a) by {
        assert forall|k: Seq<char>| #[trigger] merged(a, a).contains_key(k) implies merged(a, a)[k] == a[k] by {
            assert(lines_of(a, k).union(lines_of(a, k)) =~= a[k]);
        }
    }
    assert(merged(merged(a, b), b) =~= merged(a, b)) by {
        let m = merged(a, b);
        assert forall|k: Seq<char>| #[trigger] merged(m, b).contains_key(k) implies merged(m, b)[k] == m[k] by {
            assert(lines_of(m, k) == lines_of(a, k).union(lines_of(b, k)));
            assert(lines_of(m, k).union(lines_of(b, k)) =~= m[k]);
        }
    }
}

impl Lines {
    /// Merge together the line information of `other` into this one
    pub fn merge(&mut self, other: &Lines)
        requires
            old(self).wf(),
            other.wf(),
        ensures
            final(self).wf(),
            final(self)@ == merged(old(self)@, other@),
    {
        let ghost start = self@;
        let mut i: usize = 0;
        proof {
            assert(lines_map(other.files@.subrange(0, 0)) =~= Map::<Seq<char>, Set<i32>>::empty());
            assert(merged(start, Map::empty()) =~= start) by {
                assert forall|k: Seq<char>| #[trigger] merged(start, Map::empty()).contains_key(k) implies merged(start, Map::empty())[k] == start[k] by {
                    assert(lines_of(start, k).union(lines_of(Map::empty(), k)) =~= start[k]);
                }
            }
        }
        while i < other.files.len()
            invariant
                i <= other.files.len(),
                self.wf(),
                other.wf(),
                self@ == merged(start, lines_map(other.files@.subrange(0, i as int))),
            decreases other.files.len() - i,
        {
            let entry = &other.files[i];
            let ghost before = self@;
            self.add_file(entry.file.as_str(), &entry.lines);
            proof {
                lemma_prefix_push(other.files@, i as int);
                let m = lines_map(other.files@.subrange(0, i as int));
                let k = entry.file@;
                let l = entry.lines@.to_set();
                assert(self@ =~= merged(start, m.insert(k, l))) by {
                    assert forall|x: Seq<char>| #[trigger] self@.contains_key(x) implies self@[x] == merged(start, m.insert(k, l))[x] by {
                        if x == k {
                            assert(lines_of(before, k) == lines_of(start, k));
                        } else {
                            assert(lines_of(m.insert(k, l), x) == lines_of(m, x));
                        }
                    }
                }
            }
            i = i + 1;
        }
        proof {
            assert(other.files@.subrange(0, other.files.len() as int) =~= other.files@);
        }
    }
}

/// Execution in `file` is recorded: it is not synthetic code (a name starting with `<`),
/// and not in the interpreter's standard library, whose source root is `stdlib_root`.
pub open spec fn is_tracked(file: Seq<char>, stdlib_root: Seq<char>) -> bool {
    !has_prefix(file, "<"@) && !has_prefix(file, stdlib_root)
}

/// Whether execution in `file` is recorded.
pub fn is_tracked_file(file: &str, stdlib_root: &str) -> (r: bool)
    ensures
        r == is_tracked(file@, stdlib_root@),
{
    !starts_with(file, "<") && !starts_with(file, stdlib_root)
}

/// The map that raw per-file records stand for, keeping tracked files only; a file
/// recorded twice gets the union of its records.
pub open spec fn executed_map(s: Seq<FileLines>, stdlib_root: Seq<char>) -> Map<Seq<char>, Set<i32>>
    decreases s.len(),
{
    if s.len() == 0 {
        Map::empty()
    } else {
        let m = executed_map(s.drop_last(), stdlib_root);
        if is_tracked(s.last().file@, stdlib_root) {
            merged(m, map![s.last().file@ => s.last().lines@.to_set()])
        } else {
            m
        }
    }
}

/// Build the executed lines from what the tracer recorded, dropping untracked files.
pub fn collect_executed(records: &Vec<FileLines>, stdlib_root: &str) -> (r: Lines)
    ensures
        r.wf(),
        r@ == executed_map(records@, stdlib_root@),
{
    let mut lines = Lines::new();
    let mut i: usize = 0;
    while i < records.len()
        invariant
            i <= records.len(),
            lines.wf(),
            lines@ == executed_map(records@.subrange(0, i as int), stdlib_root@),
        decreases records.len() - i,
    {
        let entry = &records[i];
        proof {
            assert(records@.subrange(0, i + 1).drop_last() =~= records@.subrange(0, i as int));
        }
        if is_tracked_file(entry.file.as_str(), stdlib_root) {
            let ghost before = lines@;
            lines.add_file(entry.file.as_str(), &entry.lines);
            proof {
                let single = map![entry.file@ => entry.lines@.to_set()];
                assert(lines@ =~= merged(before, single)) by {
                    assert forall|x: Seq<char>| #[trigger] lines@.contains_key(x) implies lines@[x] == merged(before, single)[x] by {
                        if x != entry.file@ {
                            assert(lines_of(before, x).union(lines_of(single, x)) =~= before[x]);
                        }
                    }
                }
            }
        }
        i = i + 1;
    }
    proof {
        assert(records@.subrange(0, records.len() as int) =~= records@);
    }
    lines
}

/// The positive line numbers of a code object's line table, in order; entries without a
/// line number are left out.
pub open spec fn positive_lines(raw: Seq<Option<i32>>) -> Seq<i32>
    decreases raw.len(),
{
    if raw.len() == 0 {
        Seq::empty()
    } else {
        let rest = positive_lines(raw.drop_last());
        match raw.last() {
            Some(n) => if n > 0 {
                rest.push(n)
            } else {
                rest
            },
            None => rest,
        }
    }
}

/// Keep the positive line numbers of a line table.
pub fn line_numbers(raw: &Vec<Option<i32>>) -> (r: Vec<i32>)
    ensures
        r@ == positive_lines(raw@),
{
    let mut r: Vec<i32> = Vec::new();
    let mut i: usize = 0;
    while i < raw.len()
        invariant
            i <= raw.len(),
            r@ == positive_lines(raw@.subrange(0, i as int)),
        decreases raw.len() - i,
    {
        proof {
            assert(raw@.subrange(0, i + 1).drop_last() =~= raw@.subrange(0, i as int));
        }
        if let Some(n) = raw[i] {
            if n > 0 {
                r.push(n);
            }
        }
        i = i + 1;
    }
    proof {
        assert(raw@.subrange(0, raw.len() as int) =~= raw@);
    }
    r
}

/// How many of the lines `s` lie in `executed`.
pub open spec fn count_in(s: Seq<i32>, executed: Set<i32>) -> nat
    decreases s.len(),
{
    if s.len() == 0 {
        0
    } else {
        count_in(s.drop_last(), executed) + if executed.contains(s.last()) {
            1nat
        } else {
            0nat
        }
    }
}

proof fn lemma_count_bound(s: Seq<i32>, executed: Set<i32>)
    ensures
        count_in(s, executed) <= s.len(),
    decreases s.len(),
{
    if s.len() > 0 {
        lemma_count_bound(s.drop_last(), executed);
    }
}

/// How many of the executable lines `possible` were executed.
pub fn covered_lines(possible: &Vec<i32>, executed: Option<&Vec<i32>>) -> (r: usize)
    ensures
        r == match executed {
            Some(e) => count_in(possible@, e@.to_set()),
            None => 0,
        },
        r <= possible@.len(),
{
    let e = match executed {
        Some(e) => e,
        None => {
            return 0;
        },
    };
    let mut covered: usize = 0;
    let mut i: usize = 0;
    while i < possible.len()
        invariant
            i <= possible.len(),
            covered == count_in(possible@.subrange(0, i as int), e@.to_set()),
        decreases possible.len() - i,
    {
        proof {
            assert(possible@.subrange(0, i + 1).drop_last() =~= possible@.subrange(0, i as int));
            lemma_count_bound(possible@.subrange(0, i as int), e@.to_set());
        }
        if contains_line(e, possible[i]) {
            covered = covered + 1;
        }
        i = i + 1;
    }
    proof {
        assert(possible@.subrange(0, possible.len() as int) =~= possible@);
        lemma_count_bound(possible@, e@.to_set());
    }
    covered
}

/// `base` with the present maps of `s` merged in, one after another.
pub open spec fn merge_seq(base: Map<Seq<char>, Set<i32>>, s: Seq<Option<Lines>>) -> Map<Seq<char>, Set<i32>>
    decreases s.len(),
{
    if s.len() == 0 {
        base
    } else {
        match s.last() {
            Some(l) => merged(merge_seq(base, s.drop_last()), l@),
            None => merge_seq(base, s.drop_last()),
        }
    }
}

/// Map `i` of the sequence is present and has lines for the file `f`.
pub open spec fn has_lines_for(s: Seq<Option<Lines>>, i: int, f: Seq<char>) -> bool {
    0 <= i < s.len() && s[i] is Some && s[i].unwrap()@.contains_key(f)
}

/// Merging a sequence of line maps into a map is a union per file, in any order: a file
/// has lines in the result exactly when the map or some present map of the sequence has
/// lines for it, and a line is recorded for it exactly when one of those records it.
/// Absent maps add nothing.
pub proof fn lemma_merge_seq_union(base: Map<Seq<char>, Set<i32>>, s: Seq<Option<Lines>>, f: Seq<char>, x: i32)
    ensures
        merge_seq(base, s).contains_key(f) <==> base.contains_key(f) || exists|i: int| #[trigger] has_lines_for(s, i, f),
        merge_seq(base, s).contains_key(f) ==> (merge_seq(base, s)[f].contains(x) <==> (base.contains_key(f)
            && base[f].contains(x)) || exists|i: int| #[trigger] has_lines_for(s, i, f) && s[i].unwrap()@[f].contains(x)),
    decreases s.len(),
{
    if s.len() > 0 {
        let p = s.drop_last();
        lemma_merge_seq_union(base, p, f, x);
        let n = s.len() - 1;
        assert forall|i: int| 0 <= i < n implies has_lines_for(p, i, f) == has_lines_for(s, i, f) by {
            assert(p[i] == s[i]);
        }
        assert(s[n] == s.last());
        match s.last() {
            Some(l) => {
                assert(merge_seq(base, s) == merged(merge_seq(base, p), l@));
                if l@.contains_key(f) {
                    assert(has_lines_for(s, n, f));
                    if l@[f].contains(x) {
                        assert(has_lines_for(s, n, f) && s[n].unwrap()@[f].contains(x));
                    }
                }
            },
            None => {
                assert(merge_seq(base, s) == merge_seq(base, p));
                assert(!has_lines_for(s, n, f));
            },
        }
        if exists|i: int| #[trigger] has_lines_for(p, i, f) {
            let i = choose|i: int| #[trigger] has_lines_for(p, i, f);
            assert(has_lines_for(s, i, f));
        }
        if exists|i: int| #[trigger] has_lines_for(s, i, f) {
            let i = choose|i: int| #[trigger] has_lines_for(s, i, f);
            if i < n {
                assert(has_lines_for(p, i, f));
            }
        }
        if exists|i: int| #[trigger] has_lines_for(p, i, f) && p[i].unwrap()@[f].contains(x) {
            let i = choose|i: int| #[trigger] has_lines_for(p, i, f) && p[i].unwrap()@[f].contains(x);
            assert(has_lines_for(s, i, f) && s[i].unwrap()@[f].contains(x));
        }
        if exists|i: int| #[trigger] has_lines_for(s, i, f) && s[i].unwrap()@[f].contains(x) {
            let i = choose|i: int| #[trigger] has_lines_for(s, i, f) && s[i].unwrap()@[f].contains(x);
            if i < n {
                assert(has_lines_for(p, i, f) && p[i].unwrap()@[f].contains(x));
            }
        }
    }
}

impl Lines {
    /// Merge into this one the line information of each present map of `items`
    pub fn extend(&mut self, items: &Vec<Option<Lines>>)
        requires
            old(self).wf(),
            forall|i: int| 0 <= i < items@.len() && (#[trigger] items@[i]) is Some ==> items@[i].unwrap().wf(),
        ensures
            final(self).wf(),
            final(self)@ == merge_seq(old(self)@, items@),
    {
        let ghost start = self@;
        let mut j: usize = 0;
        while j < items.len()
            invariant
                j <= items.len(),
                self.wf(),
                self@ == merge_seq(start, items@.subrange(0, j as int)),
                forall|i: int| 0 <= i < items@.len() && (#[trigger] items@[i]) is Some ==> items@[i].unwrap().wf(),
            decreases items.len() - j,
        {
            proof {
                assert(items@.subrange(0, j + 1).drop_last() =~= items@.subrange(0, j as int));
            }
            if let Some(l) = &items[j] {
                self.merge(l);
            }
            j = j + 1;
        }
        proof {
            assert(items@.subrange(0, items.len() as int) =~= items@);
        }
    }
}

} // verus!
