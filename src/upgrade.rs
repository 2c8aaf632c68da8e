//! Walks the version chain from the detected version to the requested one.
use vstd::prelude::*;
use crate::config::{
    detect_spec, get_config_version, lemma_step_v03_translates, step_v02_spec, step_v03_spec,
    upgrade_config_v0_1_to_v0_2, upgrade_config_v0_2_to_v0_3, v03_document, ConfigFiles,
    ConfigFilesView, UpgradeError,
};
use crate::formats::{pretty_json, toml_member, MemberView};
use crate::version::{
    get_version_as_enum_variant, get_versions, index_of_version, is_version_in_accepted_versions,
    lemma_versions_ordered, resolve_spec, version_index, versions_spec, Version,
};

verus! {

/// What a completed upgrade did.
pub struct UpgradeReport {
    /// Whether the requested version is one that can be upgraded to.
    pub target_accepted: bool,
    /// The version the configuration had before the upgrade.
    pub current: Version,
    /// The version that was requested.
    pub target: Version,
    /// The versions whose step transform ran, in the order they ran.
    pub applied: Vec<Version>,
}

/// The step transform that produces version `v` from its predecessor. The
/// oldest version has no predecessor and no step.
pub open spec fn step_spec(f: ConfigFilesView, library_name: Seq<char>, v: Version) -> Result<ConfigFilesView, UpgradeError> {
    match v {
        Version::V01X => Ok(f),
        Version::V02X => step_v02_spec(f),
        Version::V03X => step_v03_spec(f, library_name),
    }
}

/// The configuration after running the steps into each version of `steps` in
/// order, and the error that stopped them, if any. A failed step leaves the
/// configuration as the steps before it left it.
pub open spec fn apply_steps(
    f: ConfigFilesView,
    library_name: Seq<char>,
    steps: Seq<Version>,
) -> (ConfigFilesView, Option<UpgradeError>)
    decreases steps.len(),
{
    if steps.len() == 0 {
        (f, None)
    } else {
        let before = apply_steps(f, library_name, steps.drop_last());
        if before.1 is Some {
            before
        } else {
            match step_spec(before.0, library_name, steps.last()) {
                Ok(g) => (g, None),
                Err(e) => (before.0, Some(e)),
            }
        }
    }
}

/// The versions whose steps lead from `current` to `target`: those after
/// `current` up to and including `target`; none where `target` is not after
/// `current`.
pub open spec fn steps_between(current: Version, target: Version) -> Seq<Version> {
    if version_index(current) < version_index(target) {
        versions_spec().subrange(version_index(current) + 1 as int, version_index(target) + 1 as int)
    } else {
        Seq::empty()
    }
}

/// What `upgrade` gives on a configuration detected as `current`, given the
/// outcome of the steps it runs.
pub open spec fn upgrade_result(
    target: Version,
    current: Version,
    outcome: (ConfigFilesView, Option<UpgradeError>),
    r: Result<UpgradeReport, UpgradeError>,
) -> bool {
    match outcome.1 {
        Some(e) => r == Err::<UpgradeReport, UpgradeError>(e),
        None => r is Ok
            && r->Ok_0.target_accepted == versions_spec().contains(target)
            && r->Ok_0.current == current
            && r->Ok_0.target == target
            && r->Ok_0.applied@ == steps_between(current, target),
    }
}

/// Runs the step transform into version `v`.
fn run_step(files: &mut ConfigFiles, v: Version, library_name: &str) -> (r: Result<(), UpgradeError>)
    ensures
        match step_spec(old(files)@, library_name@, v) {
            Ok(g) => r is Ok && final(files)@ == g,
            Err(e) => r == Err::<(), UpgradeError>(e) && final(files)@ == old(files)@,
        },
{
    match v {
        Version::V01X => Ok(()),
        Version::V02X => upgrade_config_v0_1_to_v0_2(files),
        Version::V03X => upgrade_config_v0_2_to_v0_3(files, library_name),
    }
}

/// Upgrades the configuration in `files`, of the library named
/// `library_name`, to the version that `version` names: detects the current
/// version and runs, in order and once each, the steps into every later
/// version up to and including the target. A target that is not after the
/// current version runs no step. The first step that fails stops the upgrade
/// and leaves the configuration as the steps before it left it.
pub fn upgrade(version: &str, files: &mut ConfigFiles, library_name: &str) -> (r: Result<UpgradeReport, UpgradeError>)
    ensures
        match detect_spec(old(files)@) {
            Err(e) => r == Err::<UpgradeReport, UpgradeError>(e) && final(files)@ == old(files)@,
            Ok(current) => {
                let target = resolve_spec(version@);
                let outcome = apply_steps(old(files)@, library_name@, steps_between(current, target));
                final(files)@ == outcome.0 && upgrade_result(target, current, outcome, r)
            },
        },
{
    let target = get_version_as_enum_variant(version);
    let target_accepted = is_version_in_accepted_versions(&target);
    let current = match get_config_version(files) {
        Err(e) => {
            return Err(e);
        },
        Ok(v) => v,
    };
    let ghost start = files@;
    let versions = get_versions();
    let current_index = index_of_version(current);
    let target_index = index_of_version(target);
    let mut applied: Vec<Version> = Vec::new();
    proof {
        lemma_versions_ordered();
    }
    if current_index < target_index {
        let mut pos: usize = current_index + 1;
        assert(applied@ =~= versions_spec().subrange(current_index + 1 as int, pos as int));
        while pos <= target_index
            invariant
                versions@ == versions_spec(),
                current_index as nat == version_index(current),
                target_index as nat == version_index(target),
                target == resolve_spec(version@),
                detect_spec(start) == Ok::<Version, UpgradeError>(current),
                start == old(files)@,
                target_index < 3,
                current_index < target_index,
                current_index < pos <= target_index + 1,
                applied@ == versions_spec().subrange(current_index + 1 as int, pos as int),
                apply_steps(start, library_name@, applied@) == (files@, None::<UpgradeError>),
            decreases target_index + 1 - pos,
        {
            let v = versions[pos];
            let ghost before = applied@;
            let ghost mid = files@;
            let step = run_step(files, v, library_name);
            applied.push(v);
            assert(applied@.drop_last() == before);
            assert(applied@ =~= versions_spec().subrange(current_index + 1 as int, pos + 1 as int));
            match step {
                Err(e) => {
                    assert(files@ == mid);
                    let ghost all = versions_spec().subrange(current_index + 1 as int, target_index + 1 as int);
                    assert(all.subrange(0, applied@.len() as int) =~= applied@);
                    assert(apply_steps(start, library_name@, applied@) == (mid, Some(e)));
                    proof {
                        lemma_failed_step_stops(start, library_name@, applied@, versions_spec().subrange(current_index + 1 as int, target_index + 1 as int));
                    }
                    assert(steps_between(current, target) == all);
                    return Err(e);
                },
                Ok(()) => {},
            }
            pos = pos + 1;
        }
        assert(applied@ =~= steps_between(current, target));
    } else {
        assert(steps_between(current, target) =~= applied@);
    }
    Ok(UpgradeReport { target_accepted, current, target, applied })
}

/// Once a step has failed, running further steps changes nothing.
proof fn lemma_failed_step_stops(
    f: ConfigFilesView,
    library_name: Seq<char>,
    done: Seq<Version>,
    all: Seq<Version>,
)
    requires
        apply_steps(f, library_name, done).1 is Some,
        done.len() <= all.len(),
        all.subrange(0, done.len() as int) == done,
    ensures
        apply_steps(f, library_name, all) == apply_steps(f, library_name, done),
    decreases all.len(),
{
    if all.len() > done.len() {
        assert(all.drop_last().subrange(0, done.len() as int) == done);
        lemma_failed_step_stops(f, library_name, done, all.drop_last());
    } else {
        assert(all =~= done);
    }
}

/// A target at or before the current version runs no step and leaves the
/// configuration as it was, and the upgrade reports success.
pub proof fn lemma_no_step_unless_target_after(
    f: ConfigFilesView,
    library_name: Seq<char>,
    current: Version,
    target: Version,
)
    requires
        version_index(target) <= version_index(current),
    ensures
        steps_between(current, target) == Seq::<Version>::empty(),
        apply_steps(f, library_name, steps_between(current, target)) == (f, None::<UpgradeError>),
{
}

/// Upgrading runs exactly the steps into the versions after `current` up to
/// and including `target`, each once and in upgrade order.
pub proof fn lemma_steps_in_order_once(current: Version, target: Version)
    requires
        version_index(current) < version_index(target),
    ensures
        steps_between(current, target).len() == version_index(target) - version_index(current),
        forall|i: int|
            0 <= i < steps_between(current, target).len() ==> version_index(
                #[trigger] steps_between(current, target)[i],
            ) == version_index(current) + 1 + i,
{
    lemma_versions_ordered();
}

/// The configuration a v0.3.x upgrade ends with when it starts from a TOML
/// configuration holding `project` and `modules`: only the JSON file remains.
pub open spec fn upgraded_to_v03(
    library_name: Seq<char>,
    project: Seq<char>,
    modules: Seq<Seq<char>>,
) -> ConfigFilesView {
    ConfigFilesView {
        project_toml: None,
        cli_toml: None,
        cli_json: Some(pretty_json(v03_document(library_name, project, false, modules))),
    }
}

/// Upgrading a v0.1.x or a v0.2.x configuration to v0.3.x gives the same
/// JSON configuration, and no TOML configuration of either name remains.
pub proof fn lemma_upgrade_to_newest(
    f: ConfigFilesView,
    library_name: Seq<char>,
    text: Seq<char>,
    project: Seq<char>,
    modules: Seq<Seq<char>>,
)
    requires
        toml_member(text, "godot_project_name"@) == Some(MemberView::Text(project)),
        toml_member(text, "modules"@) == Some(MemberView::List(modules.map_values(|m: Seq<char>| Some(m)))),
        (f.project_toml == Some(text) && f.cli_toml is None) || (f.project_toml is None && f.cli_toml == Some(text)),
    ensures
        detect_spec(f) is Ok,
        apply_steps(f, library_name, steps_between(detect_spec(f)->Ok_0, Version::V03X))
            == (upgraded_to_v03(library_name, project, modules), None::<UpgradeError>),
{
    lemma_versions_ordered();
    let current = detect_spec(f)->Ok_0;
    let steps = steps_between(current, Version::V03X);
    if f.project_toml is Some {
        assert(steps =~= seq![Version::V02X, Version::V03X]);
        assert(steps.drop_last() =~= seq![Version::V02X]);
        assert(steps.drop_last().drop_last() =~= Seq::<Version>::empty());
        let g = step_v02_spec(f)->Ok_0;
        assert(apply_steps(f, library_name, steps.drop_last().drop_last()) == (f, None::<UpgradeError>));
        assert(apply_steps(f, library_name, steps.drop_last()) == (g, None::<UpgradeError>));
        lemma_step_v03_translates(g, library_name, project, modules);
    } else {
        assert(steps =~= seq![Version::V03X]);
        assert(steps.drop_last() =~= Seq::<Version>::empty());
        assert(apply_steps(f, library_name, steps.drop_last()) == (f, None::<UpgradeError>));
        lemma_step_v03_translates(f, library_name, project, modules);
    }
}

} // verus!
