//! The configuration directory, version detection and the step transforms.
use vstd::prelude::*;
use crate::formats::{
    json_member, opt_text_view, pretty_json, read_json_member, read_toml_member, render_json,
    texts_view, toml_member, JsonItem, JsonView, Member, MemberView,
};
use crate::version::{get_version_as_enum_variant, resolve_spec, Version};

verus! {

/// The contents of a library's canonical configuration files; `None` where
/// the file does not exist.
pub struct ConfigFiles {
    /// `project.toml`, the v0.1.x configuration.
    pub project_toml: Option<String>,
    /// `godot-rust-cli.toml`, the v0.2.x configuration.
    pub cli_toml: Option<String>,
    /// `godot-rust-cli.json`, the v0.3.x configuration.
    pub cli_json: Option<String>,
}

/// The mathematical form of [`ConfigFiles`].
pub struct ConfigFilesView {
    pub project_toml: Option<Seq<char>>,
    pub cli_toml: Option<Seq<char>>,
    pub cli_json: Option<Seq<char>>,
}

impl View for ConfigFiles {
    type V = ConfigFilesView;

    open spec fn view(&self) -> ConfigFilesView {
        ConfigFilesView {
            project_toml: opt_text_view(self.project_toml),
            cli_toml: opt_text_view(self.cli_toml),
            cli_json: opt_text_view(self.cli_json),
        }
    }
}

/// Why an upgrade stopped.
#[derive(Debug, Clone, Copy, PartialEq, Eq, Structural)]
pub enum UpgradeError {
    /// No canonical configuration file exists.
    NoConfiguration,
    /// The v0.3.x configuration is no JSON document.
    UnparsableConfiguration,
    /// The v0.3.x configuration's `cliVersion` member is not a string.
    InvalidCliVersion,
    /// A step found no configuration of the version it upgrades from.
    MissingStepInput,
    /// A step could not read the fields it needs from the configuration.
    InvalidStepInput,
}

/// The v0.1.x (and v0.2.x) configuration object.
pub struct ConfigV01 {
    pub godot_project_name: String,
    pub modules: Vec<String>,
}

/// The v0.3.x configuration object.
pub struct ConfigV03 {
    pub name: String,
    pub godot_project_name: String,
    pub is_plugin: bool,
    pub modules: Vec<String>,
}

/// The member of the v0.3.x configuration that names the CLI version.
pub open spec fn cli_version_key() -> Seq<char> {
    "cliVersion"@
}

/// The version that a `cliVersion` member gives.
pub open spec fn version_from_member_spec(m: MemberView) -> Result<Version, UpgradeError> {
    match m {
        MemberView::Missing => Ok(Version::V03X),
        MemberView::Text(s) => Ok(resolve_spec(s)),
        _ => Err(UpgradeError::InvalidCliVersion),
    }
}

/// The version of the configuration that `f` holds. The older files are
/// looked for first: each later generation is recognised only once the
/// earlier ones are ruled out.
pub open spec fn detect_spec(f: ConfigFilesView) -> Result<Version, UpgradeError> {
    if f.project_toml is Some {
        Ok(Version::V01X)
    } else if f.cli_toml is Some {
        Ok(Version::V02X)
    } else {
        match f.cli_json {
            None => Err(UpgradeError::NoConfiguration),
            Some(text) => match json_member(text, cli_version_key()) {
                None => Err(UpgradeError::UnparsableConfiguration),
                Some(m) => version_from_member_spec(m),
            },
        }
    }
}

/// Returns the version that the `cliVersion` member of a v0.3.x or later
/// configuration gives: v0.3.x where the member is missing, the version its
/// text names where it is a string.
pub fn version_from_member(m: &Member) -> (r: Result<Version, UpgradeError>)
    ensures
        r == version_from_member_spec(m@),
{
    match m {
        Member::Missing => Ok(Version::V03X),
        Member::Text(s) => Ok(get_version_as_enum_variant(s.as_str())),
        _ => Err(UpgradeError::InvalidCliVersion),
    }
}

/// Returns the version of the configuration in `files`.
pub fn get_config_version(files: &ConfigFiles) -> (r: Result<Version, UpgradeError>)
    ensures
        r == detect_spec(files@),
{
    if files.project_toml.is_some() {
        Ok(Version::V01X)
    } else if files.cli_toml.is_some() {
        Ok(Version::V02X)
    } else {
        match &files.cli_json {
            None => Err(UpgradeError::NoConfiguration),
            Some(text) => match read_json_member(text.as_str(), "cliVersion") {
                None => Err(UpgradeError::UnparsableConfiguration),
                Some(m) => version_from_member(&m),
            },
        }
    }
}

/// The configuration after the v0.1.x to v0.2.x step: `project.toml` renamed
/// to `godot-rust-cli.toml`, its text unchanged.
pub open spec fn step_v02_spec(f: ConfigFilesView) -> Result<ConfigFilesView, UpgradeError> {
    match f.project_toml {
        None => Err(UpgradeError::MissingStepInput),
        Some(text) => Ok(ConfigFilesView { project_toml: None, cli_toml: Some(text), cli_json: f.cli_json }),
    }
}

/// Whether every item of an array member is a string.
pub open spec fn all_text(items: Seq<Option<Seq<char>>>) -> bool {
    forall|i: int| 0 <= i < items.len() ==> (#[trigger] items[i]) is Some
}

/// The texts of an array member whose items are all strings.
pub open spec fn texts_of(items: Seq<Option<Seq<char>>>) -> Seq<Seq<char>> {
    items.map_values(|o: Option<Seq<char>>| o->Some_0)
}

/// The project name and module names of a v0.1.x or v0.2.x configuration
/// text, where it has both as strings.
pub open spec fn read_v01_spec(text: Seq<char>) -> Option<(Seq<char>, Seq<Seq<char>>)> {
    match (toml_member(text, "godot_project_name"@), toml_member(text, "modules"@)) {
        (Some(MemberView::Text(project)), Some(MemberView::List(items))) => {
            if all_text(items) {
                Some((project, texts_of(items)))
            } else {
                None
            }
        },
        _ => None,
    }
}

/// The members of a v0.3.x configuration, in the order they are written.
pub open spec fn v03_document(
    name: Seq<char>,
    godot_project_name: Seq<char>,
    is_plugin: bool,
    modules: Seq<Seq<char>>,
) -> Seq<(Seq<char>, JsonView)> {
    seq![
        ("name"@, JsonView::Str(name)),
        ("godot_project_name"@, JsonView::Str(godot_project_name)),
        ("is_plugin"@, JsonView::Bool(is_plugin)),
        ("modules"@, JsonView::StrList(modules)),
    ]
}

/// The configuration after the v0.2.x to v0.3.x step: `godot-rust-cli.toml`
/// replaced by `godot-rust-cli.json`, which names the library, keeps the
/// project name and modules, and is no plugin.
pub open spec fn step_v03_spec(f: ConfigFilesView, library_name: Seq<char>) -> Result<ConfigFilesView, UpgradeError> {
    match f.cli_toml {
        None => Err(UpgradeError::MissingStepInput),
        Some(text) => match read_v01_spec(text) {
            None => Err(UpgradeError::InvalidStepInput),
            Some(fields) => Ok(ConfigFilesView {
                project_toml: f.project_toml,
                cli_toml: None,
                cli_json: Some(pretty_json(v03_document(library_name, fields.0, false, fields.1))),
            }),
        },
    }
}

/// The relation between a step's outcome and the configuration before and after it.
pub open spec fn step_outcome(
    before: ConfigFilesView,
    after: ConfigFilesView,
    r: Result<(), UpgradeError>,
    expected: Result<ConfigFilesView, UpgradeError>,
) -> bool {
    match expected {
        Ok(g) => r is Ok && after == g,
        Err(e) => r == Err::<(), UpgradeError>(e) && after == before,
    }
}

/// Updates the configuration from v0.1.x to v0.2.x by renaming `project.toml`
/// to `godot-rust-cli.toml`.
pub fn upgrade_config_v0_1_to_v0_2(files: &mut ConfigFiles) -> (r: Result<(), UpgradeError>)
    ensures
        step_outcome(old(files)@, final(files)@, r, step_v02_spec(old(files)@)),
{
    match files.project_toml.take() {
        None => Err(UpgradeError::MissingStepInput),
        Some(text) => {
            files.cli_toml = Some(text);
            Ok(())
        },
    }
}

/// Returns the texts of `items` where every item is a string.
fn modules_from_items(items: &Vec<Option<String>>) -> (r: Option<Vec<String>>)
    ensures
        match r {
            Some(v) => all_text(items@.map_values(|o: Option<String>| opt_text_view(o)))
                && texts_view(v@) == texts_of(items@.map_values(|o: Option<String>| opt_text_view(o))),
            None => !all_text(items@.map_values(|o: Option<String>| opt_text_view(o))),
        },
{
    let ghost view = items@.map_values(|o: Option<String>| opt_text_view(o));
    let mut out: Vec<String> = Vec::new();
    let mut i: usize = 0;
    while i < items.len()
        invariant
            view == items@.map_values(|o: Option<String>| opt_text_view(o)),
            i <= items.len(),
            out@.len() == i,
            forall|j: int| 0 <= j < i ==> (#[trigger] view[j]) is Some,
            forall|j: int| 0 <= j < i ==> (#[trigger] out@[j])@ == view[j]->Some_0,
        decreases items.len() - i,
    {
        match &items[i] {
            None => {
                assert(view[i as int] is None);
                return None;
            },
            Some(s) => {
                out.push(s.clone());
            },
        }
        i = i + 1;
    }
    assert(texts_view(out@) =~= texts_of(view));
    Some(out)
}

impl ConfigV01 {
    /// Reads a v0.1.x or v0.2.x configuration text; `None` where it is no
    /// TOML document or lacks the project name or the module names as strings.
    pub fn from_toml(text: &str) -> (r: Option<ConfigV01>)
        ensures
            match read_v01_spec(text@) {
                Some(fields) => r is Some && r->Some_0.godot_project_name@ == fields.0
                    && texts_view(r->Some_0.modules@) == fields.1,
                None => r is None,
            },
    {
        let project = read_toml_member(text, "godot_project_name");
        let modules = read_toml_member(text, "modules");
        match (project, modules) {
            (Some(Member::Text(godot_project_name)), Some(Member::List(items))) => {
                match modules_from_items(&items) {
                    Some(modules) => Some(ConfigV01 { godot_project_name, modules }),
                    None => None,
                }
            },
            _ => None,
        }
    }
}

impl ConfigV03 {
    /// The v0.3.x configuration of the library named `library_name` whose
    /// older configuration is `old`: no plugin.
    pub fn from_v01(old: ConfigV01, library_name: String) -> (r: ConfigV03)
        ensures
            r.name@ == library_name@,
            r.godot_project_name@ == old.godot_project_name@,
            !r.is_plugin,
            r.modules@ == old.modules@,
    {
        ConfigV03 {
            name: library_name,
            godot_project_name: old.godot_project_name,
            is_plugin: false,
            modules: old.modules,
        }
    }

    /// The members of this configuration as a JSON document.
    pub fn into_document(self) -> (r: Vec<(String, JsonItem)>)
        ensures
            crate::formats::document_view(r@) == v03_document(
                self.name@,
                self.godot_project_name@,
                self.is_plugin,
                texts_view(self.modules@),
            ),
    {
        let ghost name = self.name@;
        let ghost project = self.godot_project_name@;
        let ghost modules = texts_view(self.modules@);
        let mut r: Vec<(String, JsonItem)> = Vec::new();
        r.push(("name".to_owned(), JsonItem::Str(self.name)));
        r.push(("godot_project_name".to_owned(), JsonItem::Str(self.godot_project_name)));
        r.push(("is_plugin".to_owned(), JsonItem::Bool(self.is_plugin)));
        r.push(("modules".to_owned(), JsonItem::StrList(self.modules)));
        assert(crate::formats::document_view(r@) =~= v03_document(name, project, self.is_plugin, modules));
        r
    }
}

/// Updates the configuration from v0.2.x to v0.3.x by replacing the TOML
/// `godot-rust-cli.toml` with the JSON `godot-rust-cli.json`; the library's
/// name is `library_name`.
pub fn upgrade_config_v0_2_to_v0_3(files: &mut ConfigFiles, library_name: &str) -> (r: Result<(), UpgradeError>)
    ensures
        step_outcome(old(files)@, final(files)@, r, step_v03_spec(old(files)@, library_name@)),
{
    let old_config = match &files.cli_toml {
        None => {
            return Err(UpgradeError::MissingStepInput);
        },
        Some(text) => match ConfigV01::from_toml(text.as_str()) {
            None => {
                return Err(UpgradeError::InvalidStepInput);
            },
            Some(c) => c,
        },
    };
    let new_config = ConfigV03::from_v01(old_config, library_name.to_owned());
    let text = render_json(&new_config.into_document());
    files.cli_json = Some(text);
    files.cli_toml = None;
    Ok(())
}

/// Detection reads nothing but the configuration: on equal configurations it
/// gives equal results, so detecting twice on an unchanged directory agrees.
pub proof fn lemma_detection_idempotent(f: ConfigFilesView, g: ConfigFilesView)
    requires
        f == g,
    ensures
        detect_spec(f) == detect_spec(g),
{
}

/// The v0.1.x to v0.2.x step keeps the configuration's text under the new
/// name, leaves no `project.toml` behind, and the result is detected as v0.2.x.
pub proof fn lemma_step_v02_translates(f: ConfigFilesView)
    requires
        f.project_toml is Some,
    ensures
        step_v02_spec(f) is Ok,
        step_v02_spec(f)->Ok_0.project_toml is None,
        step_v02_spec(f)->Ok_0.cli_toml == f.project_toml,
        step_v02_spec(f)->Ok_0.cli_json == f.cli_json,
        detect_spec(step_v02_spec(f)->Ok_0) == Ok::<Version, UpgradeError>(Version::V02X),
{
}

/// The v0.2.x to v0.3.x step, on a configuration with a project name and
/// module names, writes a JSON configuration naming the library, with the
/// same project name and modules in the same order, no plugin, and leaves no
/// `godot-rust-cli.toml` behind.
pub proof fn lemma_step_v03_translates(
    f: ConfigFilesView,
    library_name: Seq<char>,
    project: Seq<char>,
    modules: Seq<Seq<char>>,
)
    requires
        f.cli_toml is Some,
        toml_member(f.cli_toml->Some_0, "godot_project_name"@) == Some(MemberView::Text(project)),
        toml_member(f.cli_toml->Some_0, "modules"@) == Some(
            MemberView::List(modules.map_values(|m: Seq<char>| Some(m))),
        ),
    ensures
        step_v03_spec(f, library_name) is Ok,
        step_v03_spec(f, library_name)->Ok_0.project_toml == f.project_toml,
        step_v03_spec(f, library_name)->Ok_0.cli_toml is None,
        step_v03_spec(f, library_name)->Ok_0.cli_json == Some(
            pretty_json(v03_document(library_name, project, false, modules)),
        ),
{
    let items = modules.map_values(|m: Seq<char>| Some(m));
    assert(all_text(items));
    assert(texts_of(items) =~= modules);
}

} // verus!
