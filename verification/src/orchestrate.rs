use vstd::prelude::*;

use crate::action::Action;
use crate::action::ActionV;
use crate::action::lemma_concat_contains;
use crate::action::push_copy;
use crate::action::push_remove_dir_all;
use crate::action::push_remove_file;
use crate::action::push_run_builder;
use crate::action::views_of;
use crate::chip::Chip;
use crate::chip::chip_from_name;
use crate::chip::default_chips;
use crate::chip::spec_chip_from_name;
use crate::chip::spec_chip_name;
use crate::chip::spec_default_chips;
use crate::headerplan::push_global_actions;
use crate::headerplan::push_header_actions;
use crate::headerplan::spec_global_actions;
use crate::headerplan::spec_header_actions;
use crate::libplan::push_lib_actions;
use crate::libplan::spec_coex_copy;
use crate::libplan::spec_lib_actions;
use crate::libplan::spec_phy_copy;
use crate::strutil::concat2;

verus! {

/// Remove the helper project's previous build directory and generated
/// configuration files; all four removals are best-effort.
pub open spec fn spec_clean_actions() -> Seq<ActionV> {
    seq![
        ActionV::RemoveDirAll { path: "./helper_project/build"@ },
        ActionV::RemoveFile { path: "./helper_project/sdkconfig"@ },
        ActionV::RemoveFile { path: "./helper_project/sdkconfig.defaults"@ },
        ActionV::RemoveFile { path: "./helper_project/sdkconfig.old"@ },
    ]
}

/// Put the chip's configuration fragment where the helper build expects it.
pub open spec fn spec_configure_actions(c: Chip) -> Seq<ActionV> {
    seq![
        ActionV::CopyFile {
            from: "./patch/"@ + spec_chip_name(c) + "/sdkconfig.defaults"@,
            to: "./helper_project/sdkconfig.defaults"@,
        },
    ]
}

/// Invoke the external builder on the helper project for the chip.
pub open spec fn spec_build_actions(c: Chip) -> Seq<ActionV> {
    seq![ActionV::RunBuilder { project_dir: "helper_project"@, target: c }]
}

/// The whole per-chip pipeline: clean, configure, build, collect static
/// libraries, collect and patch headers.
pub open spec fn spec_target_plan(c: Chip, idf: Seq<char>) -> Seq<ActionV> {
    spec_clean_actions() + spec_configure_actions(c) + spec_build_actions(c) + spec_lib_actions(
        c,
        idf,
    ) + spec_header_actions(c, idf)
}

/// Append the clean step.
pub(crate) fn push_clean_actions(plan: &mut Vec<Action>)
    ensures
        views_of(final(plan)@) == views_of(old(plan)@) + spec_clean_actions(),
{
    push_remove_dir_all(plan, String::from_str("./helper_project/build"));
    push_remove_file(plan, String::from_str("./helper_project/sdkconfig"));
    push_remove_file(plan, String::from_str("./helper_project/sdkconfig.defaults"));
    push_remove_file(plan, String::from_str("./helper_project/sdkconfig.old"));
    proof {
        assert(views_of(plan@) =~= views_of(old(plan)@) + spec_clean_actions());
    }
}

fn push_configure_actions(plan: &mut Vec<Action>, c: Chip)
    ensures
        views_of(final(plan)@) == views_of(old(plan)@) + spec_configure_actions(c),
{
    let from = crate::strutil::concat3("./patch/", c.name(), "/sdkconfig.defaults");
    push_copy(plan, from, String::from_str("./helper_project/sdkconfig.defaults"));
    proof {
        assert(views_of(plan@) =~= views_of(old(plan)@) + spec_configure_actions(c));
    }
}

fn push_build_actions(plan: &mut Vec<Action>, c: Chip)
    ensures
        views_of(final(plan)@) == views_of(old(plan)@) + spec_build_actions(c),
{
    push_run_builder(plan, String::from_str("helper_project"), c);
    proof {
        assert(views_of(plan@) =~= views_of(old(plan)@) + spec_build_actions(c));
    }
}

fn push_target_plan(plan: &mut Vec<Action>, c: Chip, idf: &str)
    ensures
        views_of(final(plan)@) == views_of(old(plan)@) + spec_target_plan(c, idf@),
{
    push_clean_actions(plan);
    push_configure_actions(plan, c);
    push_build_actions(plan, c);
    push_lib_actions(plan, c, idf);
    push_header_actions(plan, c, idf);
    proof {
        assert(views_of(plan@) =~= views_of(old(plan)@) + spec_target_plan(c, idf@));
    }
}

/// The whole pipeline for one chip.
pub fn target_plan(c: Chip, idf_path: &str) -> (r: Vec<Action>)
    ensures
        views_of(r@) == spec_target_plan(c, idf_path@),
{
    let mut plan: Vec<Action> = Vec::new();
    proof {
        crate::action::lemma_views_of_empty();
    }
    push_target_plan(&mut plan, c, idf_path);
    proof {
        assert(views_of(plan@) =~= spec_target_plan(c, idf_path@));
    }
    plan
}

/// The per-chip pipelines of a whole run, in order.
pub open spec fn spec_plans_for(chips: Seq<Chip>, idf: Seq<char>) -> Seq<ActionV>
    decreases chips.len(),
{
    if chips.len() == 0 {
        Seq::<ActionV>::empty()
    } else {
        spec_target_plan(chips[0], idf) + spec_plans_for(chips.skip(1), idf)
    }
}

proof fn lemma_plans_for_snoc(chips: Seq<Chip>, c: Chip, idf: Seq<char>)
    ensures
        spec_plans_for(chips.push(c), idf) == spec_plans_for(chips, idf) + spec_target_plan(
            c,
            idf,
        ),
    decreases chips.len(),
{
    if chips.len() == 0 {
        assert(chips.push(c)[0] == c);
        assert(chips.push(c).skip(1) =~= Seq::<Chip>::empty());
        assert(spec_plans_for(Seq::<Chip>::empty(), idf) == Seq::<ActionV>::empty());
        assert(spec_plans_for(chips.push(c), idf) == spec_target_plan(c, idf)
            + Seq::<ActionV>::empty());
        assert(spec_target_plan(c, idf) + Seq::<ActionV>::empty() =~= Seq::<ActionV>::empty()
            + spec_target_plan(c, idf));
    } else {
        assert(chips.push(c)[0] == chips[0]);
        assert(chips.push(c).skip(1) =~= chips.skip(1).push(c));
        lemma_plans_for_snoc(chips.skip(1), c, idf);
        assert(spec_plans_for(chips.push(c), idf) == spec_target_plan(chips[0], idf) + (
        spec_plans_for(chips.skip(1), idf) + spec_target_plan(c, idf)));
        assert(spec_target_plan(chips[0], idf) + (spec_plans_for(chips.skip(1), idf)
            + spec_target_plan(c, idf)) =~= (spec_target_plan(chips[0], idf) + spec_plans_for(
            chips.skip(1),
            idf,
        )) + spec_target_plan(c, idf));
    }
}

/// Everything a full run performs: each chip's pipeline, then the shared
/// headers, their patches and the version stamp.
pub open spec fn spec_run_plan(chips: Seq<Chip>, idf: Seq<char>) -> Seq<ActionV> {
    spec_plans_for(chips, idf) + spec_global_actions(idf)
}

/// The full plan of a run over the given chips.
pub fn run_plan(chips: &Vec<Chip>, idf_path: &str) -> (r: Vec<Action>)
    ensures
        views_of(r@) == spec_run_plan(chips@, idf_path@),
{
    let mut plan: Vec<Action> = Vec::new();
    let n = chips.len();
    let mut i: usize = 0;
    proof {
        assert(chips@.take(0) =~= Seq::<Chip>::empty());
        assert(views_of(plan@) =~= spec_plans_for(chips@.take(0), idf_path@));
    }
    while i < n
        invariant
            i <= n,
            n == chips@.len(),
            views_of(plan@) == spec_plans_for(chips@.take(i as int), idf_path@),
        decreases n - i,
    {
        push_target_plan(&mut plan, chips[i], idf_path);
        proof {
            assert(chips@.take(i + 1) =~= chips@.take(i as int).push(chips@[i as int]));
            lemma_plans_for_snoc(chips@.take(i as int), chips@[i as int], idf_path@);
        }
        i = i + 1;
    }
    proof {
        assert(chips@.take(n as int) =~= chips@);
    }
    push_global_actions(&mut plan, idf_path);
    plan
}

/// Why a run could not be planned.
#[derive(Clone, Debug, PartialEq, Eq)]
pub enum RunError {
    /// No SDK installation is active in the environment.
    MissingSdkPath,
    /// The working directory is not the project root: the marker file is
    /// absent.
    MissingVersionMarker,
    /// A caller-supplied target identifier is outside the known set.
    UnknownChip { name: String },
}

/// All caller-supplied identifiers name known chips.
pub open spec fn spec_args_ok(args: Seq<String>) -> bool {
    forall|i: int| 0 <= i < args.len() ==> (#[trigger] spec_chip_from_name(args[i]@)) is Some
}

/// The chips the caller-supplied identifiers name.
pub open spec fn spec_parsed_chips(args: Seq<String>) -> Seq<Chip>
    recommends
        spec_args_ok(args),
{
    Seq::new(args.len(), |i: int| spec_chip_from_name(args[i]@).unwrap())
}

/// The chips a run processes: the caller's, or the built-in default list
/// when the caller supplies none.
pub open spec fn spec_selected_chips(args: Seq<String>) -> Seq<Chip> {
    if args.len() == 0 {
        spec_default_chips()
    } else {
        spec_parsed_chips(args)
    }
}

/// `name` is the first caller-supplied identifier that names no chip.
pub open spec fn spec_first_unknown(args: Seq<String>, name: Seq<char>) -> bool {
    exists|i: int|
        0 <= i < args.len() && (#[trigger] spec_chip_from_name(args[i]@)) is None && name
            == args[i]@ && (forall|j: int|
            0 <= j < i ==> (#[trigger] spec_chip_from_name(args[j]@)) is Some)
}

/// Decide which chips to process; an unrecognized identifier is a fatal
/// condition, reported rather than reached during artifact collection.
pub fn select_chips(args: &Vec<String>) -> (r: Result<Vec<Chip>, RunError>)
    ensures
        spec_args_ok(args@) ==> (r matches Ok(v) && v@ == spec_selected_chips(args@)),
        !spec_args_ok(args@) ==> (r matches Err(e) && (e matches RunError::UnknownChip { name }
            && spec_first_unknown(args@, name@))),
{
    let n = args.len();
    if n == 0 {
        let v = default_chips();
        return Ok(v);
    }
    let mut v: Vec<Chip> = Vec::new();
    let mut i: usize = 0;
    while i < n
        invariant
            i <= n,
            n == args@.len(),
            v@.len() == i,
            forall|k: int| 0 <= k < i ==> (#[trigger] spec_chip_from_name(args@[k]@)) is Some,
            forall|k: int|
                0 <= k < i ==> v@[k] == spec_chip_from_name(args@[k]@).unwrap(),
        decreases n - i,
    {
        match chip_from_name(args[i].as_str()) {
            Some(c) => {
                v.push(c);
            },
            None => {
                return Err(RunError::UnknownChip { name: args[i].clone() });
            },
        }
        i = i + 1;
    }
    proof {
        assert(v@ =~= spec_parsed_chips(args@));
    }
    Ok(v)
}

/// Plan a whole run. The environment preconditions are checked before any
/// action is produced: with no active SDK installation, or outside the
/// project root, the result is the matching error and no plan at all, so
/// nothing gets mutated. A good environment and known identifiers give
/// the full action sequence of the run.
pub fn plan_run(chip_args: &Vec<String>, sdk_path: Option<&str>, version_marker_present: bool) -> (r:
    Result<Vec<Action>, RunError>)
    ensures
        sdk_path is None ==> r == Err::<Vec<Action>, RunError>(RunError::MissingSdkPath),
        sdk_path is Some && !version_marker_present ==> r == Err::<Vec<Action>, RunError>(
            RunError::MissingVersionMarker,
        ),
        sdk_path matches Some(p) ==> (version_marker_present && spec_args_ok(chip_args@) ==> (
        r matches Ok(plan) && views_of(plan@) == spec_run_plan(
            spec_selected_chips(chip_args@),
            p@,
        ))),
        sdk_path is Some && version_marker_present && !spec_args_ok(chip_args@) ==> (
        r matches Err(e) && (e matches RunError::UnknownChip { name } && spec_first_unknown(
            chip_args@,
            name@,
        ))),
{
    let idf = match sdk_path {
        None => {
            return Err(RunError::MissingSdkPath);
        },
        Some(p) => p,
    };
    if !version_marker_present {
        return Err(RunError::MissingVersionMarker);
    }
    let chips = match select_chips(chip_args) {
        Ok(v) => v,
        Err(e) => {
            return Err(e);
        },
    };
    Ok(run_plan(&chips, idf))
}

/// The process exit status reported for a planning error: one distinct
/// status per environment precondition; an unknown chip aborts without a
/// dedicated status.
pub fn error_exit_code(e: &RunError) -> (c: Option<i32>)
    ensures
        e is MissingSdkPath ==> c == Some(-2i32),
        e is MissingVersionMarker ==> c == Some(-1i32),
        (e matches RunError::UnknownChip { .. }) ==> c is None,
{
    match e {
        RunError::MissingSdkPath => Some(-2),
        RunError::MissingVersionMarker => Some(-1),
        RunError::UnknownChip { .. } => None,
    }
}

/// The arguments handed to the external builder for one chip: select the
/// target, then build.
pub fn builder_args(c: Chip) -> (r: Vec<String>)
    ensures
        r@.len() == 2,
        r@[0]@ == "-DIDF_TARGET="@ + spec_chip_name(c),
        r@[1]@ == "build"@,
{
    let mut v: Vec<String> = Vec::new();
    v.push(concat2("-DIDF_TARGET=", c.name()));
    v.push(String::from_str("build"));
    v
}

/// An action of one chip's pipeline stands in the plan of every run that
/// processes the chip.
proof fn lemma_plans_for_contains(chips: Seq<Chip>, i: int, idf: Seq<char>, x: ActionV)
    requires
        0 <= i < chips.len(),
        spec_target_plan(chips[i], idf).contains(x),
    ensures
        spec_plans_for(chips, idf).contains(x),
    decreases chips.len(),
{
    if i == 0 {
        lemma_concat_contains(
            spec_target_plan(chips[0], idf),
            spec_plans_for(chips.skip(1), idf),
            x,
        );
    } else {
        assert(chips.skip(1)[i - 1] == chips[i]);
        lemma_plans_for_contains(chips.skip(1), i - 1, idf, x);
        lemma_concat_contains(
            spec_target_plan(chips[0], idf),
            spec_plans_for(chips.skip(1), idf),
            x,
        );
    }
}

/// Law: the physical-layer blob and the coexistence blob are requested in
/// every target run: the full plan of a run holds both copies for each
/// chip it processes, whatever the SDK path.
pub proof fn lemma_run_plan_has_phy_and_coex(chips: Seq<Chip>, i: int, idf: Seq<char>)
    requires
        0 <= i < chips.len(),
    ensures
        spec_run_plan(chips, idf).contains(spec_phy_copy(chips[i], idf)),
        spec_run_plan(chips, idf).contains(spec_coex_copy(chips[i], idf)),
{
    lemma_target_plan_has_phy_and_coex(chips[i], idf);
    lemma_plans_for_contains(chips, i, idf, spec_phy_copy(chips[i], idf));
    lemma_plans_for_contains(chips, i, idf, spec_coex_copy(chips[i], idf));
    lemma_concat_contains(
        spec_plans_for(chips, idf),
        spec_global_actions(idf),
        spec_phy_copy(chips[i], idf),
    );
    lemma_concat_contains(
        spec_plans_for(chips, idf),
        spec_global_actions(idf),
        spec_coex_copy(chips[i], idf),
    );
}

/// Law: every chip's full pipeline requests the physical-layer blob and
/// the coexistence blob, whatever the SDK path.
pub proof fn lemma_target_plan_has_phy_and_coex(c: Chip, idf: Seq<char>)
    ensures
        spec_target_plan(c, idf).contains(spec_phy_copy(c, idf)),
        spec_target_plan(c, idf).contains(spec_coex_copy(c, idf)),
{
    crate::libplan::lemma_phy_and_coex_unconditional(c, idf);
    let pre = spec_clean_actions() + spec_configure_actions(c) + spec_build_actions(c);
    lemma_concat_contains(pre, spec_lib_actions(c, idf), spec_phy_copy(c, idf));
    lemma_concat_contains(pre, spec_lib_actions(c, idf), spec_coex_copy(c, idf));
    lemma_concat_contains(
        pre + spec_lib_actions(c, idf),
        spec_header_actions(c, idf),
        spec_phy_copy(c, idf),
    );
    lemma_concat_contains(
        pre + spec_lib_actions(c, idf),
        spec_header_actions(c, idf),
        spec_coex_copy(c, idf),
    );
}

} // verus!
