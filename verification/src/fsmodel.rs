use vstd::prelude::*;

use crate::action::ActionV;
use crate::orchestrate::spec_clean_actions;
use crate::strutil::concat2;
use crate::strutil::is_prefix;
use crate::strutil::str_eq;
use crate::strutil::str_has_prefix;

verus! {

/// The views of a sequence of path strings.
pub open spec fn path_views(s: Seq<String>) -> Seq<Seq<char>> {
    Seq::new(s.len(), |i: int| s[i]@)
}

proof fn lemma_path_views_push(s: Seq<String>, x: String)
    ensures
        path_views(s.push(x)) == path_views(s).push(x@),
{
    assert(path_views(s.push(x)) =~= path_views(s).push(x@));
}

/// True when the path `q` lies in the directory tree rooted at `dir`.
pub open spec fn spec_in_dir(q: Seq<char>, dir: Seq<char>) -> bool {
    q == dir || is_prefix(dir + "/"@, q)
}

/// The paths left after removing one file; removing an absent file is a
/// no-op, not an error.
pub open spec fn spec_remove_file_m(fs: Seq<Seq<char>>, path: Seq<char>) -> Seq<Seq<char>>
    decreases fs.len(),
{
    if fs.len() == 0 {
        Seq::<Seq<char>>::empty()
    } else if fs[0] == path {
        spec_remove_file_m(fs.skip(1), path)
    } else {
        seq![fs[0]] + spec_remove_file_m(fs.skip(1), path)
    }
}

/// The paths left after removing a directory tree; removing an absent
/// tree is a no-op, not an error.
pub open spec fn spec_remove_dir_m(fs: Seq<Seq<char>>, dir: Seq<char>) -> Seq<Seq<char>>
    decreases fs.len(),
{
    if fs.len() == 0 {
        Seq::<Seq<char>>::empty()
    } else if spec_in_dir(fs[0], dir) {
        spec_remove_dir_m(fs.skip(1), dir)
    } else {
        seq![fs[0]] + spec_remove_dir_m(fs.skip(1), dir)
    }
}

/// What the clean step does to a filesystem: drop the helper build tree
/// and the three generated configuration files.
pub open spec fn spec_clean_m(fs: Seq<Seq<char>>) -> Seq<Seq<char>> {
    spec_remove_file_m(
        spec_remove_file_m(
            spec_remove_file_m(
                spec_remove_dir_m(fs, "./helper_project/build"@),
                "./helper_project/sdkconfig"@,
            ),
            "./helper_project/sdkconfig.defaults"@,
        ),
        "./helper_project/sdkconfig.old"@,
    )
}

proof fn lemma_remove_file_pure(fs: Seq<Seq<char>>, path: Seq<char>)
    ensures
        forall|q: Seq<char>|
            #[trigger] spec_remove_file_m(fs, path).contains(q) ==> q != path && fs.contains(q),
    decreases fs.len(),
{
    if fs.len() == 0 {
    } else {
        lemma_remove_file_pure(fs.skip(1), path);
        assert forall|q: Seq<char>| #[trigger]
            spec_remove_file_m(fs, path).contains(q) implies q != path && fs.contains(q) by {
            let r = spec_remove_file_m(fs, path);
            let i = choose|i: int| 0 <= i < r.len() && r[i] == q;
            if fs[0] == path {
                assert(spec_remove_file_m(fs.skip(1), path).contains(q));
                let j = choose|j: int|
                    0 <= j < fs.skip(1).len() && fs.skip(1)[j] == q;
                assert(fs[j + 1] == q);
            } else {
                if i == 0 {
                    assert(q == fs[0]);
                } else {
                    assert(spec_remove_file_m(fs.skip(1), path)[i - 1] == q);
                    assert(spec_remove_file_m(fs.skip(1), path).contains(q));
                    let j = choose|j: int|
                        0 <= j < fs.skip(1).len() && fs.skip(1)[j] == q;
                    assert(fs[j + 1] == q);
                }
            }
        }
    }
}

proof fn lemma_remove_dir_pure(fs: Seq<Seq<char>>, dir: Seq<char>)
    ensures
        forall|q: Seq<char>|
            #[trigger] spec_remove_dir_m(fs, dir).contains(q) ==> !spec_in_dir(q, dir)
                && fs.contains(q),
    decreases fs.len(),
{
    if fs.len() == 0 {
    } else {
        lemma_remove_dir_pure(fs.skip(1), dir);
        assert forall|q: Seq<char>| #[trigger]
            spec_remove_dir_m(fs, dir).contains(q) implies !spec_in_dir(q, dir) && fs.contains(
            q,
        ) by {
            let r = spec_remove_dir_m(fs, dir);
            let i = choose|i: int| 0 <= i < r.len() && r[i] == q;
            if spec_in_dir(fs[0], dir) {
                assert(spec_remove_dir_m(fs.skip(1), dir).contains(q));
                let j = choose|j: int|
                    0 <= j < fs.skip(1).len() && fs.skip(1)[j] == q;
                assert(fs[j + 1] == q);
            } else {
                if i == 0 {
                    assert(q == fs[0]);
                } else {
                    assert(spec_remove_dir_m(fs.skip(1), dir)[i - 1] == q);
                    assert(spec_remove_dir_m(fs.skip(1), dir).contains(q));
                    let j = choose|j: int|
                        0 <= j < fs.skip(1).len() && fs.skip(1)[j] == q;
                    assert(fs[j + 1] == q);
                }
            }
        }
    }
}

proof fn lemma_remove_file_noop(fs: Seq<Seq<char>>, path: Seq<char>)
    requires
        forall|i: int| 0 <= i < fs.len() ==> fs[i] != path,
    ensures
        spec_remove_file_m(fs, path) == fs,
    decreases fs.len(),
{
    if fs.len() == 0 {
        assert(fs =~= Seq::<Seq<char>>::empty());
    } else {
        lemma_remove_file_noop(fs.skip(1), path);
        assert(seq![fs[0]] + fs.skip(1) =~= fs);
    }
}

proof fn lemma_remove_dir_noop(fs: Seq<Seq<char>>, dir: Seq<char>)
    requires
        forall|i: int| 0 <= i < fs.len() ==> !spec_in_dir(fs[i], dir),
    ensures
        spec_remove_dir_m(fs, dir) == fs,
    decreases fs.len(),
{
    if fs.len() == 0 {
        assert(fs =~= Seq::<Seq<char>>::empty());
    } else {
        lemma_remove_dir_noop(fs.skip(1), dir);
        assert(seq![fs[0]] + fs.skip(1) =~= fs);
    }
}

/// Law: the clean step is idempotent: cleaning an already cleaned tree
/// changes nothing, whatever the filesystem held before — in particular
/// cleaning twice in a row, with no build artifacts present in between,
/// never fails and leaves the same state as cleaning once.
pub proof fn lemma_clean_idempotent(fs: Seq<Seq<char>>)
    ensures
        spec_clean_m(spec_clean_m(fs)) == spec_clean_m(fs),
{
    let d = "./helper_project/build"@;
    let p1 = "./helper_project/sdkconfig"@;
    let p2 = "./helper_project/sdkconfig.defaults"@;
    let p3 = "./helper_project/sdkconfig.old"@;
    let f0 = spec_remove_dir_m(fs, d);
    let f1 = spec_remove_file_m(f0, p1);
    let f2 = spec_remove_file_m(f1, p2);
    let c = spec_remove_file_m(f2, p3);
    lemma_remove_dir_pure(fs, d);
    lemma_remove_file_pure(f0, p1);
    lemma_remove_file_pure(f1, p2);
    lemma_remove_file_pure(f2, p3);
    assert forall|i: int| 0 <= i < c.len() implies !spec_in_dir(c[i], d) by {
        assert(c.contains(c[i]));
        assert(f2.contains(c[i]));
        assert(f1.contains(c[i]));
        assert(f0.contains(c[i]));
    }
    lemma_remove_dir_noop(c, d);
    assert forall|i: int| 0 <= i < c.len() implies c[i] != p1 by {
        assert(c.contains(c[i]));
        assert(f2.contains(c[i]));
        assert(f1.contains(c[i]));
    }
    lemma_remove_file_noop(c, p1);
    assert forall|i: int| 0 <= i < c.len() implies c[i] != p2 by {
        assert(c.contains(c[i]));
        assert(f2.contains(c[i]));
    }
    lemma_remove_file_noop(c, p2);
    assert forall|i: int| 0 <= i < c.len() implies c[i] != p3 by {
        assert(c.contains(c[i]));
    }
    lemma_remove_file_noop(c, p3);
}

/// What a sequence of best-effort removal actions does to a filesystem;
/// actions of other kinds remove nothing.
pub open spec fn spec_apply_removals(fs: Seq<Seq<char>>, acts: Seq<ActionV>) -> Seq<Seq<char>>
    decreases acts.len(),
{
    if acts.len() == 0 {
        fs
    } else {
        let rest = acts.skip(1);
        match acts[0] {
            ActionV::RemoveDirAll { path } => spec_apply_removals(
                spec_remove_dir_m(fs, path),
                rest,
            ),
            ActionV::RemoveFile { path } => spec_apply_removals(
                spec_remove_file_m(fs, path),
                rest,
            ),
            _ => spec_apply_removals(fs, rest),
        }
    }
}

/// The clean step of the plan does to a filesystem exactly what the
/// clean semantics says.
pub proof fn lemma_clean_actions_semantics(fs: Seq<Seq<char>>)
    ensures
        spec_apply_removals(fs, spec_clean_actions()) == spec_clean_m(fs),
{
    let acts = spec_clean_actions();
    let r2 = ActionV::RemoveFile { path: "./helper_project/sdkconfig"@ };
    let r3 = ActionV::RemoveFile { path: "./helper_project/sdkconfig.defaults"@ };
    let r4 = ActionV::RemoveFile { path: "./helper_project/sdkconfig.old"@ };
    let c0 = spec_remove_dir_m(fs, "./helper_project/build"@);
    let c1 = spec_remove_file_m(c0, "./helper_project/sdkconfig"@);
    let c2 = spec_remove_file_m(c1, "./helper_project/sdkconfig.defaults"@);
    let a1 = seq![r2, r3, r4];
    let a2 = seq![r3, r4];
    let a3 = seq![r4];
    assert(acts[0] == ActionV::RemoveDirAll { path: "./helper_project/build"@ });
    assert(acts.skip(1) =~= a1);
    assert(spec_apply_removals(fs, acts) == spec_apply_removals(c0, a1));
    assert(a1.skip(1) =~= a2);
    assert(spec_apply_removals(c0, a1) == spec_apply_removals(c1, a2));
    assert(a2.skip(1) =~= a3);
    assert(spec_apply_removals(c1, a2) == spec_apply_removals(c2, a3));
    assert(a3.skip(1) =~= Seq::<ActionV>::empty());
    assert(spec_apply_removals(c2, a3) == spec_apply_removals(
        spec_clean_m(fs),
        Seq::<ActionV>::empty(),
    ));
}

/// Law: running the plan's clean step twice in succession leaves the same
/// state as running it once; the semantics is total, so the second run
/// cannot fail, in particular when no prior build artifacts exist.
pub proof fn lemma_clean_step_idempotent(fs: Seq<Seq<char>>)
    ensures
        spec_apply_removals(spec_apply_removals(fs, spec_clean_actions()), spec_clean_actions())
            == spec_apply_removals(fs, spec_clean_actions()),
{
    lemma_clean_actions_semantics(fs);
    lemma_clean_actions_semantics(spec_clean_m(fs));
    lemma_clean_idempotent(fs);
}

proof fn lemma_remove_file_snoc(fs: Seq<Seq<char>>, x: Seq<char>, path: Seq<char>)
    ensures
        spec_remove_file_m(fs.push(x), path) == spec_remove_file_m(fs, path) + (if x == path {
            Seq::<Seq<char>>::empty()
        } else {
            seq![x]
        }),
    decreases fs.len(),
{
    let tail = if x == path {
        Seq::<Seq<char>>::empty()
    } else {
        seq![x]
    };
    if fs.len() == 0 {
        assert(fs.push(x)[0] == x);
        assert(fs.push(x).skip(1) =~= Seq::<Seq<char>>::empty());
        assert(spec_remove_file_m(Seq::<Seq<char>>::empty(), path)
            == Seq::<Seq<char>>::empty());
        if x == path {
            assert(spec_remove_file_m(fs.push(x), path) == spec_remove_file_m(
                fs.push(x).skip(1),
                path,
            ));
        } else {
            assert(spec_remove_file_m(fs.push(x), path) == seq![x] + spec_remove_file_m(
                fs.push(x).skip(1),
                path,
            ));
        }
        assert(spec_remove_file_m(fs.push(x), path) =~= spec_remove_file_m(fs, path) + tail);
    } else {
        assert(fs.push(x)[0] == fs[0]);
        assert(fs.push(x).skip(1) =~= fs.skip(1).push(x));
        lemma_remove_file_snoc(fs.skip(1), x, path);
        if fs[0] == path {
            assert(spec_remove_file_m(fs.push(x), path) == spec_remove_file_m(
                fs.skip(1).push(x),
                path,
            ));
            assert(spec_remove_file_m(fs, path) == spec_remove_file_m(fs.skip(1), path));
        } else {
            assert(spec_remove_file_m(fs.push(x), path) == seq![fs[0]] + spec_remove_file_m(
                fs.skip(1).push(x),
                path,
            ));
            assert(spec_remove_file_m(fs, path) == seq![fs[0]] + spec_remove_file_m(
                fs.skip(1),
                path,
            ));
            assert(seq![fs[0]] + (spec_remove_file_m(fs.skip(1), path) + tail) =~= (seq![fs[0]]
                + spec_remove_file_m(fs.skip(1), path)) + tail);
        }
    }
}

proof fn lemma_remove_dir_snoc(fs: Seq<Seq<char>>, x: Seq<char>, dir: Seq<char>)
    ensures
        spec_remove_dir_m(fs.push(x), dir) == spec_remove_dir_m(fs, dir) + (if spec_in_dir(
            x,
            dir,
        ) {
            Seq::<Seq<char>>::empty()
        } else {
            seq![x]
        }),
    decreases fs.len(),
{
    let tail = if spec_in_dir(x, dir) {
        Seq::<Seq<char>>::empty()
    } else {
        seq![x]
    };
    if fs.len() == 0 {
        assert(fs.push(x)[0] == x);
        assert(fs.push(x).skip(1) =~= Seq::<Seq<char>>::empty());
        assert(spec_remove_dir_m(Seq::<Seq<char>>::empty(), dir) == Seq::<Seq<char>>::empty());
        if spec_in_dir(x, dir) {
            assert(spec_remove_dir_m(fs.push(x), dir) == spec_remove_dir_m(
                fs.push(x).skip(1),
                dir,
            ));
        } else {
            assert(spec_remove_dir_m(fs.push(x), dir) == seq![x] + spec_remove_dir_m(
                fs.push(x).skip(1),
                dir,
            ));
        }
        assert(spec_remove_dir_m(fs.push(x), dir) =~= spec_remove_dir_m(fs, dir) + tail);
    } else {
        assert(fs.push(x)[0] == fs[0]);
        assert(fs.push(x).skip(1) =~= fs.skip(1).push(x));
        lemma_remove_dir_snoc(fs.skip(1), x, dir);
        if spec_in_dir(fs[0], dir) {
            assert(spec_remove_dir_m(fs.push(x), dir) == spec_remove_dir_m(
                fs.skip(1).push(x),
                dir,
            ));
            assert(spec_remove_dir_m(fs, dir) == spec_remove_dir_m(fs.skip(1), dir));
        } else {
            assert(spec_remove_dir_m(fs.push(x), dir) == seq![fs[0]] + spec_remove_dir_m(
                fs.skip(1).push(x),
                dir,
            ));
            assert(spec_remove_dir_m(fs, dir) == seq![fs[0]] + spec_remove_dir_m(
                fs.skip(1),
                dir,
            ));
            assert(seq![fs[0]] + (spec_remove_dir_m(fs.skip(1), dir) + tail) =~= (seq![fs[0]]
                + spec_remove_dir_m(fs.skip(1), dir)) + tail);
        }
    }
}

/// Is `q` a path inside the tree rooted at `dir`?
fn path_in_dir(q: &str, dir: &str) -> (r: bool)
    ensures
        r == spec_in_dir(q@, dir@),
{
    if str_eq(q, dir) {
        true
    } else {
        let p = concat2(dir, "/");
        str_has_prefix(q, p.as_str())
    }
}

/// A mocked filesystem: the set of file paths that exist, in creation
/// order. It carries no contents — enough to exercise the removal steps
/// the way the real tool performs them.
pub struct MockFs {
    files: Vec<String>,
}

impl View for MockFs {
    type V = Seq<Seq<char>>;

    closed spec fn view(&self) -> Seq<Seq<char>> {
        path_views(self.files@)
    }
}

impl MockFs {
    /// An empty filesystem.
    pub fn new() -> (r: MockFs)
        ensures
            r@ == Seq::<Seq<char>>::empty(),
    {
        let r = MockFs { files: Vec::new() };
        proof {
            assert(r@ =~= Seq::<Seq<char>>::empty());
        }
        r
    }

    /// Create one file.
    pub fn add_file(&mut self, path: &str)
        ensures
            final(self)@ == old(self)@.push(path@),
    {
        self.files.push(String::from_str(path));
        proof {
            assert(self@ =~= old(self)@.push(path@));
        }
    }

    /// How many files exist.
    pub fn file_count(&self) -> (r: usize)
        ensures
            r == self@.len(),
    {
        self.files.len()
    }

    /// Does the file exist?
    pub fn has_file(&self, path: &str) -> (r: bool)
        ensures
            r == self@.contains(path@),
    {
        let n = self.files.len();
        let mut i: usize = 0;
        while i < n
            invariant
                i <= n,
                n == self.files@.len(),
                forall|k: int| 0 <= k < i ==> self@[k] != path@,
            decreases n - i,
        {
            if str_eq(self.files[i].as_str(), path) {
                assert(self@[i as int] == path@);
                return true;
            }
            i = i + 1;
        }
        false
    }

    /// Remove one file; absence is a no-op, never an error.
    pub fn remove_file(&mut self, path: &str)
        ensures
            final(self)@ == spec_remove_file_m(old(self)@, path@),
    {
        let n = self.files.len();
        let mut out: Vec<String> = Vec::new();
        let mut i: usize = 0;
        proof {
            assert(old(self)@.take(0) =~= Seq::<Seq<char>>::empty());
            assert(path_views(out@) =~= Seq::<Seq<char>>::empty());
        }
        while i < n
            invariant
                i <= n,
                n == self.files@.len(),
                self.files@ == old(self).files@,
                path_views(out@) == spec_remove_file_m(old(self)@.take(i as int), path@),
            decreases n - i,
        {
            proof {
                assert(old(self)@.take(i + 1) =~= old(self)@.take(i as int).push(
                    old(self)@[i as int],
                ));
                lemma_remove_file_snoc(old(self)@.take(i as int), old(self)@[i as int], path@);
            }
            if !str_eq(self.files[i].as_str(), path) {
                let f = self.files[i].clone();
                proof {
                    lemma_path_views_push(out@, f);
                    assert(path_views(out@).push(f@) =~= path_views(out@) + seq![
                        old(self)@[i as int],
                    ]);
                }
                out.push(f);
            } else {
                proof {
                    assert(path_views(out@) + Seq::<Seq<char>>::empty() =~= path_views(out@));
                }
            }
            i = i + 1;
        }
        proof {
            assert(old(self)@.take(n as int) =~= old(self)@);
        }
        self.files = out;
    }

    /// Remove a directory tree; absence is a no-op, never an error.
    pub fn remove_dir_all(&mut self, dir: &str)
        ensures
            final(self)@ == spec_remove_dir_m(old(self)@, dir@),
    {
        let n = self.files.len();
        let mut out: Vec<String> = Vec::new();
        let mut i: usize = 0;
        proof {
            assert(old(self)@.take(0) =~= Seq::<Seq<char>>::empty());
            assert(path_views(out@) =~= Seq::<Seq<char>>::empty());
        }
        while i < n
            invariant
                i <= n,
                n == self.files@.len(),
                self.files@ == old(self).files@,
                path_views(out@) == spec_remove_dir_m(old(self)@.take(i as int), dir@),
            decreases n - i,
        {
            proof {
                assert(old(self)@.take(i + 1) =~= old(self)@.take(i as int).push(
                    old(self)@[i as int],
                ));
                lemma_remove_dir_snoc(old(self)@.take(i as int), old(self)@[i as int], dir@);
            }
            if !path_in_dir(self.files[i].as_str(), dir) {
                let f = self.files[i].clone();
                proof {
                    lemma_path_views_push(out@, f);
                    assert(path_views(out@).push(f@) =~= path_views(out@) + seq![
                        old(self)@[i as int],
                    ]);
                }
                out.push(f);
            } else {
                proof {
                    assert(path_views(out@) + Seq::<Seq<char>>::empty() =~= path_views(out@));
                }
            }
            i = i + 1;
        }
        proof {
            assert(old(self)@.take(n as int) =~= old(self)@);
        }
        self.files = out;
    }

    /// Perform the clean step: the same four removals the per-chip
    /// pipeline starts with. Total for every filesystem state — nothing
    /// to remove is not an error.
    pub fn run_clean(&mut self)
        ensures
            final(self)@ == spec_clean_m(old(self)@),
    {
        self.remove_dir_all("./helper_project/build");
        self.remove_file("./helper_project/sdkconfig");
        self.remove_file("./helper_project/sdkconfig.defaults");
        self.remove_file("./helper_project/sdkconfig.old");
    }
}

} // verus!
