use vstd::prelude::*;

use crate::chip::Chip;

verus! {

/// One step of the orchestration pipeline. The unverified executable
/// interprets a sequence of these against the real filesystem and the
/// external build tool; the library only ever computes them.
#[derive(Clone, Debug, PartialEq, Eq)]
pub enum Action {
    /// Remove a directory tree; a missing directory is not an error.
    RemoveDirAll { path: String },
    /// Remove one file; a missing file is not an error.
    RemoveFile { path: String },
    /// Create a directory together with its parents.
    MakeDirAll { path: String },
    /// Copy one file; a missing source is fatal.
    CopyFile { from: String, to: String },
    /// Copy every regular file lying directly in `from` into `to`.
    CopyDirFiles { from: String, to: String },
    /// Invoke the external builder inside `project_dir` for `target`.
    RunBuilder { project_dir: String, target: Chip },
    /// Replace every occurrence of `search` in the file by `replace`.
    PatchFile { path: String, search: String, replace: String },
    /// Query the external builder's version and write it verbatim to `path`.
    RecordVersion { path: String },
}

/// The mathematical shape of an action: the same constructors over
/// character sequences.
pub enum ActionV {
    RemoveDirAll { path: Seq<char> },
    RemoveFile { path: Seq<char> },
    MakeDirAll { path: Seq<char> },
    CopyFile { from: Seq<char>, to: Seq<char> },
    CopyDirFiles { from: Seq<char>, to: Seq<char> },
    RunBuilder { project_dir: Seq<char>, target: Chip },
    PatchFile { path: Seq<char>, search: Seq<char>, replace: Seq<char> },
    RecordVersion { path: Seq<char> },
}

impl View for Action {
    type V = ActionV;

    open spec fn view(&self) -> ActionV {
        match self {
            Action::RemoveDirAll { path } => ActionV::RemoveDirAll { path: path@ },
            Action::RemoveFile { path } => ActionV::RemoveFile { path: path@ },
            Action::MakeDirAll { path } => ActionV::MakeDirAll { path: path@ },
            Action::CopyFile { from, to } => ActionV::CopyFile { from: from@, to: to@ },
            Action::CopyDirFiles { from, to } => ActionV::CopyDirFiles { from: from@, to: to@ },
            Action::RunBuilder { project_dir, target } => ActionV::RunBuilder {
                project_dir: project_dir@,
                target: *target,
            },
            Action::PatchFile { path, search, replace } => ActionV::PatchFile {
                path: path@,
                search: search@,
                replace: replace@,
            },
            Action::RecordVersion { path } => ActionV::RecordVersion { path: path@ },
        }
    }
}

/// The views of a whole plan, in order.
pub open spec fn views_of(s: Seq<Action>) -> Seq<ActionV> {
    Seq::new(s.len(), |i: int| s[i]@)
}

pub broadcast proof fn lemma_views_of_push(s: Seq<Action>, a: Action)
    ensures
        #[trigger] views_of(s.push(a)) == views_of(s).push(a@),
{
    assert(views_of(s.push(a)) =~= views_of(s).push(a@));
}

pub proof fn lemma_views_of_empty()
    ensures
        views_of(Seq::<Action>::empty()) == Seq::<ActionV>::empty(),
{
    assert(views_of(Seq::<Action>::empty()) =~= Seq::<ActionV>::empty());
}

/// An element of either part stands in the concatenation.
pub proof fn lemma_concat_contains<T>(a: Seq<T>, b: Seq<T>, x: T)
    requires
        a.contains(x) || b.contains(x),
    ensures
        (a + b).contains(x),
{
    if a.contains(x) {
        let i = choose|i: int| 0 <= i < a.len() && a[i] == x;
        assert((a + b)[i] == x);
    } else {
        let i = choose|i: int| 0 <= i < b.len() && b[i] == x;
        assert((a + b)[a.len() + i] == x);
    }
}

/// Append one file copy to a plan.
pub(crate) fn push_copy(plan: &mut Vec<Action>, from: String, to: String)
    ensures
        views_of(final(plan)@) == views_of(old(plan)@) + seq![
            ActionV::CopyFile { from: from@, to: to@ },
        ],
{
    plan.push(Action::CopyFile { from, to });
    proof {
        broadcast use lemma_views_of_push;

        assert(views_of(plan@) =~= views_of(old(plan)@) + seq![
            ActionV::CopyFile { from: from@, to: to@ },
        ]);
    }
}

/// Append one directory-contents copy to a plan.
pub(crate) fn push_copy_dir(plan: &mut Vec<Action>, from: String, to: String)
    ensures
        views_of(final(plan)@) == views_of(old(plan)@) + seq![
            ActionV::CopyDirFiles { from: from@, to: to@ },
        ],
{
    plan.push(Action::CopyDirFiles { from, to });
    proof {
        broadcast use lemma_views_of_push;

        assert(views_of(plan@) =~= views_of(old(plan)@) + seq![
            ActionV::CopyDirFiles { from: from@, to: to@ },
        ]);
    }
}

/// Append one literal text substitution to a plan.
pub(crate) fn push_patch(plan: &mut Vec<Action>, path: String, search: String, replace: String)
    ensures
        views_of(final(plan)@) == views_of(old(plan)@) + seq![
            ActionV::PatchFile { path: path@, search: search@, replace: replace@ },
        ],
{
    plan.push(Action::PatchFile { path, search, replace });
    proof {
        broadcast use lemma_views_of_push;

        assert(views_of(plan@) =~= views_of(old(plan)@) + seq![
            ActionV::PatchFile { path: path@, search: search@, replace: replace@ },
        ]);
    }
}

/// Append one directory-tree removal to a plan.
pub(crate) fn push_remove_dir_all(plan: &mut Vec<Action>, path: String)
    ensures
        views_of(final(plan)@) == views_of(old(plan)@) + seq![ActionV::RemoveDirAll { path: path@ }],
{
    plan.push(Action::RemoveDirAll { path });
    proof {
        broadcast use lemma_views_of_push;

        assert(views_of(plan@) =~= views_of(old(plan)@) + seq![
            ActionV::RemoveDirAll { path: path@ },
        ]);
    }
}

/// Append one file removal to a plan.
pub(crate) fn push_remove_file(plan: &mut Vec<Action>, path: String)
    ensures
        views_of(final(plan)@) == views_of(old(plan)@) + seq![ActionV::RemoveFile { path: path@ }],
{
    plan.push(Action::RemoveFile { path });
    proof {
        broadcast use lemma_views_of_push;

        assert(views_of(plan@) =~= views_of(old(plan)@) + seq![
            ActionV::RemoveFile { path: path@ },
        ]);
    }
}

/// Append one directory creation to a plan.
pub(crate) fn push_make_dir_all(plan: &mut Vec<Action>, path: String)
    ensures
        views_of(final(plan)@) == views_of(old(plan)@) + seq![ActionV::MakeDirAll { path: path@ }],
{
    plan.push(Action::MakeDirAll { path });
    proof {
        broadcast use lemma_views_of_push;

        assert(views_of(plan@) =~= views_of(old(plan)@) + seq![
            ActionV::MakeDirAll { path: path@ },
        ]);
    }
}

/// Append one builder invocation to a plan.
pub(crate) fn push_run_builder(plan: &mut Vec<Action>, project_dir: String, target: Chip)
    ensures
        views_of(final(plan)@) == views_of(old(plan)@) + seq![
            ActionV::RunBuilder { project_dir: project_dir@, target },
        ],
{
    plan.push(Action::RunBuilder { project_dir, target });
    proof {
        broadcast use lemma_views_of_push;

        assert(views_of(plan@) =~= views_of(old(plan)@) + seq![
            ActionV::RunBuilder { project_dir: project_dir@, target },
        ]);
    }
}

/// Append the version-stamp step to a plan.
pub(crate) fn push_record_version(plan: &mut Vec<Action>, path: String)
    ensures
        views_of(final(plan)@) == views_of(old(plan)@) + seq![ActionV::RecordVersion { path: path@ }],
{
    plan.push(Action::RecordVersion { path });
    proof {
        broadcast use lemma_views_of_push;

        assert(views_of(plan@) =~= views_of(old(plan)@) + seq![
            ActionV::RecordVersion { path: path@ },
        ]);
    }
}

} // verus!
