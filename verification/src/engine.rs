//! The provisioning orchestrator: derives the desired state from a parsed
//! configuration document, enforces the privilege gate, dispatches the host
//! rename once, dispatches one install per requested package, and aggregates
//! the per-package outcomes into an ordered summary.

use vstd::prelude::*;
use vstd::string::StringExecFns;
use crate::command::{InvocationModel, OperationError};
use crate::config::{
    determine_file_format, doc_get, doc_lookup_model, item_models, spec_file_format, ConfigError,
    ConfigItem, ConfigValue, FileFormat, ItemModel, ValueModel,
};
use crate::install_package::{backend_of, install, spec_backend_of, spec_install_invocation};
use crate::json::{json_doc_of, Json};
use crate::sys_ops::{is_running_as_root, rename_computer, spec_rename_invocation, Platform};
use crate::yaml::{yaml_doc_of, Yaml};

verus! {

/// The validated, format-independent provisioning intent.
#[derive(Debug, Clone, PartialEq, Eq)]
pub struct DesiredState {
    pub hostname: String,
    pub package_manager: String,
    pub packages: Vec<String>,
}

/// The mathematical content of a desired state.
#[verifier::ext_equal]
pub struct StateModel {
    pub hostname: Seq<char>,
    pub package_manager: Seq<char>,
    pub packages: Seq<Seq<char>>,
}

impl View for DesiredState {
    type V = StateModel;

    open spec fn view(&self) -> StateModel {
        StateModel {
            hostname: self.hostname@,
            package_manager: self.package_manager@,
            packages: self.packages.deep_view(),
        }
    }
}

/// The text entries of a sequence, in order, the other entries dropped.
pub open spec fn text_items(items: Seq<ItemModel>) -> Seq<Seq<char>>
    decreases items.len(),
{
    if items.len() == 0 {
        Seq::empty()
    } else {
        text_items(items.drop_last()) + match items.last() {
            ItemModel::Text(text) => seq![text],
            ItemModel::Other => Seq::empty(),
        }
    }
}

/// The scalar text stored under `key`, if the key resolves to text.
pub fn get_str_value(entries: &Vec<(String, ConfigValue)>, key: &str) -> (value: Option<String>)
    ensures
        match value {
            Some(text) => doc_lookup_model(entries@, key@) == Some(ValueModel::Text(text@)),
            None => !(doc_lookup_model(entries@, key@) matches Some(ValueModel::Text(_))),
        },
{
    match doc_get(entries, key) {
        Some(ConfigValue::Text(text)) => Some(text.clone()),
        Some(_) => None,
        None => None,
    }
}

/// The scalar text stored under `key` of a YAML document.
pub fn get_str_value_yaml(yaml: &Yaml, key: &str) -> (value: Option<String>)
    ensures
        match value {
            Some(text) => doc_lookup_model(yaml.data@, key@) == Some(ValueModel::Text(text@)),
            None => !(doc_lookup_model(yaml.data@, key@) matches Some(ValueModel::Text(_))),
        },
{
    get_str_value(&yaml.data, key)
}

/// The scalar text stored under `key` of a JSON document.
pub fn get_str_value_json(json: &Json, key: &str) -> (value: Option<String>)
    ensures
        match value {
            Some(text) => doc_lookup_model(json.data@, key@) == Some(ValueModel::Text(text@)),
            None => !(doc_lookup_model(json.data@, key@) matches Some(ValueModel::Text(_))),
        },
{
    get_str_value(&json.data, key)
}

/// Collects the text entries of a sequence, in input order; entries of any
/// other shape are dropped without failing.
fn collect_texts(list: &Vec<ConfigItem>) -> (texts: Vec<String>)
    ensures
        texts.deep_view() == text_items(item_models(list@)),
{
    let mut texts: Vec<String> = Vec::new();
    let mut i: usize = 0;
    while i < list.len()
        invariant
            i <= list@.len(),
            texts.deep_view() == text_items(item_models(list@).take(i as int)),
        decreases list@.len() - i,
    {
        let ghost models = item_models(list@);
        let ghost old_texts = texts.deep_view();
        match &list[i] {
            ConfigItem::Text(text) => {
                texts.push(text.clone());
                proof {
                    assert(texts.deep_view() =~= old_texts + seq![list@[i as int]@->Text_0]);
                }
            },
            ConfigItem::Other => (),
        }
        proof {
            assert(models.take(i + 1).drop_last() =~= models.take(i as int));
            assert(models.take(i + 1).last() == models[i as int]);
            assert(texts.deep_view() =~= text_items(models.take(i + 1)));
        }
        i += 1;
    }
    proof {
        assert(item_models(list@).take(list@.len() as int) =~= item_models(list@));
    }
    texts
}

/// The requested packages: the string entries of the `packages` sequence, in
/// order. Fails exactly when `packages` does not resolve to a sequence.
pub fn extract_packages(entries: &Vec<(String, ConfigValue)>) -> (result: Result<
    Vec<String>,
    &'static str,
>)
    ensures
        match result {
            Ok(packages) => doc_lookup_model(entries@, "packages"@) matches Some(
                ValueModel::List(models),
            ) && packages.deep_view() == text_items(models),
            Err(_) => !(doc_lookup_model(entries@, "packages"@) matches Some(ValueModel::List(_))),
        },
{
    match doc_get(entries, "packages") {
        Some(ConfigValue::List(list)) => Ok(collect_texts(list)),
        Some(_) => Err("Missing or invalid 'packages'"),
        None => Err("Missing or invalid 'packages'"),
    }
}

/// The requested packages of a YAML document.
pub fn extract_packages_yaml(yaml: &Yaml) -> (result: Result<Vec<String>, &'static str>)
    ensures
        match result {
            Ok(packages) => doc_lookup_model(yaml.data@, "packages"@) matches Some(
                ValueModel::List(models),
            ) && packages.deep_view() == text_items(models),
            Err(_) => !(doc_lookup_model(yaml.data@, "packages"@) matches Some(
                ValueModel::List(_),
            )),
        },
{
    extract_packages(&yaml.data)
}

/// The requested packages of a JSON document.
pub fn extract_packages_json(json: &Json) -> (result: Result<Vec<String>, &'static str>)
    ensures
        match result {
            Ok(packages) => doc_lookup_model(json.data@, "packages"@) matches Some(
                ValueModel::List(models),
            ) && packages.deep_view() == text_items(models),
            Err(_) => !(doc_lookup_model(json.data@, "packages"@) matches Some(
                ValueModel::List(_),
            )),
        },
{
    extract_packages(&json.data)
}

/// What building a desired state from a document yields: the state, or the
/// first required field that does not resolve, in the fixed order `hostname`,
/// `package_manager`, `packages`.
#[verifier::ext_equal]
pub enum BuildOutcome {
    Loaded(StateModel),
    Missing(Seq<char>),
}

/// The desired state a document's semantic content determines. `hostname` and
/// `package_manager` must resolve to text and `packages` to a sequence, whose
/// text entries are the requested packages.
pub open spec fn spec_build(entries: Seq<(String, ConfigValue)>) -> BuildOutcome {
    match doc_lookup_model(entries, "hostname"@) {
        Some(ValueModel::Text(hostname)) => match doc_lookup_model(entries, "package_manager"@) {
            Some(ValueModel::Text(manager)) => match doc_lookup_model(entries, "packages"@) {
                Some(ValueModel::List(items)) => BuildOutcome::Loaded(
                    StateModel {
                        hostname: hostname,
                        package_manager: manager,
                        packages: text_items(items),
                    },
                ),
                _ => BuildOutcome::Missing("packages"@),
            },
            _ => BuildOutcome::Missing("package_manager"@),
        },
        _ => BuildOutcome::Missing("hostname"@),
    }
}

/// The value a document map holds under `key`.
pub open spec fn map_lookup(doc: Map<Seq<char>, ValueModel>, key: Seq<char>) -> Option<
    ValueModel,
> {
    if doc.contains_key(key) {
        Some(doc[key])
    } else {
        None
    }
}

/// The desired state a document map determines: `spec_build`, stated over the
/// map a parser names rather than over a document's entries.
pub open spec fn spec_build_of_map(doc: Map<Seq<char>, ValueModel>) -> BuildOutcome {
    match map_lookup(doc, "hostname"@) {
        Some(ValueModel::Text(hostname)) => match map_lookup(doc, "package_manager"@) {
            Some(ValueModel::Text(manager)) => match map_lookup(doc, "packages"@) {
                Some(ValueModel::List(items)) => BuildOutcome::Loaded(
                    StateModel {
                        hostname: hostname,
                        package_manager: manager,
                        packages: text_items(items),
                    },
                ),
                _ => BuildOutcome::Missing("packages"@),
            },
            _ => BuildOutcome::Missing("package_manager"@),
        },
        _ => BuildOutcome::Missing("hostname"@),
    }
}

/// A document whose entries look up exactly as a map does builds the same
/// outcome as that map.
proof fn lemma_build_agrees(
    entries: Seq<(String, ConfigValue)>,
    doc: Map<Seq<char>, ValueModel>,
)
    requires
        forall|key: Seq<char>| #[trigger] doc_lookup_model(entries, key) == map_lookup(doc, key),
    ensures
        spec_build(entries) == spec_build_of_map(doc),
{
    assert(doc_lookup_model(entries, "hostname"@) == map_lookup(doc, "hostname"@));
    assert(doc_lookup_model(entries, "package_manager"@) == map_lookup(
        doc,
        "package_manager"@,
    ));
    assert(doc_lookup_model(entries, "packages"@) == map_lookup(doc, "packages"@));
}

/// The document map the announced syntax's parser gives `text`: None when the
/// format is unsupported or the text malformed for that syntax.
pub open spec fn spec_doc_of(format: FileFormat, text: Seq<char>) -> Option<
    Map<Seq<char>, ValueModel>,
> {
    match format {
        FileFormat::Yaml => yaml_doc_of(text),
        FileFormat::Json => json_doc_of(text),
        FileFormat::Unknown => None,
    }
}

/// Builds the desired state of a parsed document, or reports the first
/// required field that does not resolve.
pub fn build_desired_state(entries: &Vec<(String, ConfigValue)>) -> (result: Result<
    DesiredState,
    ConfigError,
>)
    ensures
        match result {
            Ok(state) => spec_build(entries@) == BuildOutcome::Loaded(state@),
            Err(e) => e matches ConfigError::MissingField(field) && spec_build(entries@)
                == BuildOutcome::Missing(field@),
        },
{
    let hostname = match get_str_value(entries, "hostname") {
        Some(text) => text,
        None => {
            return Err(ConfigError::MissingField(String::from_str("hostname")));
        },
    };
    let package_manager = match get_str_value(entries, "package_manager") {
        Some(text) => text,
        None => {
            return Err(ConfigError::MissingField(String::from_str("package_manager")));
        },
    };
    let packages = match extract_packages(entries) {
        Ok(packages) => packages,
        Err(_) => {
            return Err(ConfigError::MissingField(String::from_str("packages")));
        },
    };
    let state = DesiredState { hostname, package_manager, packages };
    proof {
        assert(spec_build(entries@) =~= BuildOutcome::Loaded(state@));
    }
    Ok(state)
}

/// Loads a desired state from the text of a configuration source: the path's
/// extension picks the syntax, the text is parsed, and the document's fields
/// are extracted. The format is unsupported exactly when the path announces
/// neither syntax; the parse fails exactly when the announced syntax gives
/// the text no document; otherwise the result is what the parsed document
/// builds — the state, or its first missing field.
pub fn load(file_path: &str, text: &str) -> (result: Result<DesiredState, ConfigError>)
    ensures
        (result matches Err(ConfigError::UnsupportedFormat)) <==> spec_file_format(file_path@)
            == FileFormat::Unknown,
        (result matches Err(ConfigError::ParseFailed(_))) <==> (spec_file_format(file_path@)
            != FileFormat::Unknown && spec_doc_of(spec_file_format(file_path@), text@) is None),
        result matches Ok(state) ==> spec_doc_of(spec_file_format(file_path@), text@) matches Some(
            doc,
        ) && spec_build_of_map(doc) == BuildOutcome::Loaded(state@),
        result matches Err(ConfigError::MissingField(field)) ==> spec_doc_of(
            spec_file_format(file_path@),
            text@,
        ) matches Some(doc) && spec_build_of_map(doc) == BuildOutcome::Missing(field@),
{
    match determine_file_format(file_path) {
        FileFormat::Yaml => match Yaml::new(file_path, text) {
            Ok(document) => {
                proof {
                    lemma_build_agrees(document.data@, yaml_doc_of(text@)->Some_0);
                }
                build_desired_state(&document.data)
            },
            Err(e) => Err(e),
        },
        FileFormat::Json => match Json::new(file_path, text) {
            Ok(document) => {
                proof {
                    lemma_build_agrees(document.data@, json_doc_of(text@)->Some_0);
                }
                build_desired_state(&document.data)
            },
            Err(e) => Err(e),
        },
        FileFormat::Unknown => Err(ConfigError::UnsupportedFormat),
    }
}

/// The recorded result of one attempted package installation.
#[derive(Debug, Clone, PartialEq, Eq)]
pub enum InstallStatus {
    Success,
    Failure(String),
}

/// One attempted package installation: the package and how it went. Produced
/// exactly once per attempted entry, in input order, never retried.
#[derive(Debug, Clone, PartialEq, Eq)]
pub struct InstallOutcome {
    pub package_name: String,
    pub status: InstallStatus,
}

/// The rendering of one completed run: already-decided facts only.
#[derive(Debug, Clone, PartialEq, Eq)]
pub struct Summary {
    pub hostname: String,
    pub package_manager: String,
    pub outcomes: Vec<InstallOutcome>,
}

/// How one provisioning run ended. Only a completed run carries outcomes;
/// a run stopped by the privilege check or by the rename carries none.
#[derive(Debug, Clone, PartialEq, Eq)]
pub enum ProvisionReport {
    PrivilegeDenied,
    RenameFailed(String),
    Completed(Summary),
}

/// Attempts every requested package in input order when the package manager
/// is recognized, recording one outcome per package whatever each attempt
/// returned; an unrecognized package manager yields zero attempts and zero
/// outcomes.
pub fn install_all(package_manager: &str, packages: &Vec<String>) -> (outcomes: Vec<
    InstallOutcome,
>)
    ensures
        spec_backend_of(package_manager@) is Some ==> outcomes@.len() == packages@.len()
            && forall|i: int|
            0 <= i < outcomes@.len() ==> outcomes@[i].package_name@ == packages@[i]@,
        spec_backend_of(package_manager@) is None ==> outcomes@.len() == 0,
{
    let mut outcomes: Vec<InstallOutcome> = Vec::new();
    if backend_of(package_manager).is_none() {
        return outcomes;
    }
    let mut i: usize = 0;
    while i < packages.len()
        invariant
            spec_backend_of(package_manager@) is Some,
            i <= packages@.len(),
            outcomes@.len() == i,
            forall|j: int| 0 <= j < i ==> outcomes@[j].package_name@ == packages@[j]@,
        decreases packages@.len() - i,
    {
        let status = match install(package_manager, packages[i].as_str()) {
            Ok(()) => InstallStatus::Success,
            Err(OperationError::InstallFailed(_, detail)) => InstallStatus::Failure(detail),
            Err(OperationError::RenameFailed(_)) => {
                proof {
                    assert(false);
                }
                InstallStatus::Success
            },
        };
        outcomes.push(InstallOutcome { package_name: packages[i].clone(), status });
        i += 1;
    }
    outcomes
}

/// One full provisioning run over an already-loaded desired state: gate,
/// rename, installs, summary — in that order, and each stage only after the
/// one before it succeeded. A completed summary restates the desired hostname
/// and package manager and carries one outcome per attempted package.
pub fn provision(state: &DesiredState) -> (report: ProvisionReport)
    ensures
        report matches ProvisionReport::Completed(summary) ==> {
            &&& summary.hostname@ == state.hostname@
            &&& summary.package_manager@ == state.package_manager@
            &&& spec_backend_of(state.package_manager@) is Some ==> summary.outcomes@.len()
                == state.packages@.len() && forall|i: int|
                0 <= i < summary.outcomes@.len() ==> summary.outcomes@[i].package_name@
                    == state.packages@[i]@
            &&& spec_backend_of(state.package_manager@) is None ==> summary.outcomes@.len() == 0
        },
{
    if !is_running_as_root() {
        return ProvisionReport::PrivilegeDenied;
    }
    match rename_computer(state.hostname.as_str()) {
        Ok(()) => (),
        Err(OperationError::RenameFailed(detail)) => {
            return ProvisionReport::RenameFailed(detail);
        },
        Err(OperationError::InstallFailed(_, detail)) => {
            proof {
                assert(false);
            }
            return ProvisionReport::RenameFailed(detail);
        },
    }
    let outcomes = install_all(state.package_manager.as_str(), &state.packages);
    ProvisionReport::Completed(
        Summary {
            hostname: state.hostname.clone(),
            package_manager: state.package_manager.clone(),
            outcomes,
        },
    )
}

/// The process exit code a report calls for: zero exactly for a completed
/// run — even one whose every install failed — and one for a run stopped by
/// the privilege check or by the rename.
pub fn exit_code(report: &ProvisionReport) -> (code: i32)
    ensures
        (code == 0) <==> report matches ProvisionReport::Completed(_),
        !(report matches ProvisionReport::Completed(_)) ==> code == 1,
{
    match report {
        ProvisionReport::Completed(_) => 0,
        ProvisionReport::PrivilegeDenied => 1,
        ProvisionReport::RenameFailed(_) => 1,
    }
}

/// The install commands one run submits for a recognized package manager:
/// one per requested package, in input order; none for an unrecognized one.
pub open spec fn spec_install_run(manager: Seq<char>, packages: Seq<Seq<char>>) -> Seq<
    InvocationModel,
> {
    match spec_backend_of(manager) {
        Some(backend) => packages.map_values(
            |package: Seq<char>| spec_install_invocation(backend, package),
        ),
        None => Seq::empty(),
    }
}

/// The external commands one run submits, in order, given the desired state
/// and the environment's replies: whether the privilege gate passed, and
/// whether the rename command exited with status zero. The engine consults
/// the privilege check first, renames second and installs last, as
/// `provision` does: no command before a passed privilege check, and no
/// install before a successful rename.
pub open spec fn spec_run_invocations(
    state: StateModel,
    privileged: bool,
    rename_ok: bool,
) -> Seq<InvocationModel> {
    if !privileged {
        Seq::empty()
    } else if !rename_ok {
        seq![spec_rename_invocation(Platform::Linux, state.hostname)]
    } else {
        seq![spec_rename_invocation(Platform::Linux, state.hostname)] + spec_install_run(
            state.package_manager,
            state.packages,
        )
    }
}

/// The outcomes one run records, given the environment's reply to each
/// install attempt: `replies[i]` is `None` when package `i`'s command exited
/// zero, and carries the failure detail otherwise.
pub open spec fn spec_outcomes(
    manager: Seq<char>,
    packages: Seq<Seq<char>>,
    replies: Seq<Option<Seq<char>>>,
) -> Seq<(Seq<char>, Option<Seq<char>>)> {
    if spec_backend_of(manager) is Some {
        Seq::new(packages.len(), |i: int| (packages[i], replies[i]))
    } else {
        Seq::empty()
    }
}

/// Privilege-gate failure occurs strictly before any external command: a run
/// whose gate answers false submits no command at all, whatever the rest of
/// the environment would have answered.
pub proof fn lemma_privilege_gate_blocks_commands(state: StateModel, rename_ok: bool)
    ensures
        spec_run_invocations(state, false, rename_ok) == Seq::<InvocationModel>::empty(),
{
}

/// Rename failure prevents every install attempt: such a run submits exactly
/// the one rename command and nothing after it; its report carries no outcome
/// list, and `exit_code` maps it to a non-zero code.
pub proof fn lemma_rename_failure_blocks_installs(state: StateModel)
    ensures
        spec_run_invocations(state, true, false) == seq![
            spec_rename_invocation(Platform::Linux, state.hostname),
        ],
        spec_run_invocations(state, true, false).len() == 1,
{
}

/// An unrecognized package manager yields zero install attempts and zero
/// recorded outcomes, while the rename is still submitted and stands per its
/// own outcome.
pub proof fn lemma_unrecognized_manager_skips_installs(
    state: StateModel,
    replies: Seq<Option<Seq<char>>>,
)
    requires
        spec_backend_of(state.package_manager) is None,
    ensures
        spec_run_invocations(state, true, true) == seq![
            spec_rename_invocation(Platform::Linux, state.hostname),
        ],
        spec_outcomes(state.package_manager, state.packages, replies) == Seq::<
            (Seq<char>, Option<Seq<char>>),
        >::empty(),
{
    assert(spec_run_invocations(state, true, true) =~= seq![
        spec_rename_invocation(Platform::Linux, state.hostname),
    ]);
}

/// Install attempts are independent: the i-th recorded outcome is the i-th
/// package paired with the environment's reply to that same attempt, so a
/// different reply to any other attempt leaves it unchanged — and every
/// attempted package appears in the outcome list.
pub proof fn lemma_install_independence(
    manager: Seq<char>,
    packages: Seq<Seq<char>>,
    replies_one: Seq<Option<Seq<char>>>,
    replies_two: Seq<Option<Seq<char>>>,
    i: int,
)
    requires
        spec_backend_of(manager) is Some,
        0 <= i < packages.len(),
        replies_one[i] == replies_two[i],
    ensures
        spec_outcomes(manager, packages, replies_one).len() == packages.len(),
        spec_outcomes(manager, packages, replies_one)[i] == (packages[i], replies_one[i]),
        spec_outcomes(manager, packages, replies_one)[i] == spec_outcomes(
            manager,
            packages,
            replies_two,
        )[i],
{
}

/// For every loaded desired state and every run over it, the recorded
/// outcomes equal, in number and order, the string-typed entries of the
/// configured `packages` sequence when the package manager is recognized,
/// and are zero when it is not.
pub proof fn lemma_outcomes_follow_packages(
    entries: Seq<(String, ConfigValue)>,
    replies: Seq<Option<Seq<char>>>,
)
    ensures
        spec_build(entries) matches BuildOutcome::Loaded(state) ==> {
            let outcomes = spec_outcomes(state.package_manager, state.packages, replies);
            &&& spec_backend_of(state.package_manager) is Some ==> {
                &&& doc_lookup_model(entries, "packages"@) matches Some(ValueModel::List(items))
                    && outcomes.len() == text_items(items).len()
                &&& forall|i: int| 0 <= i < outcomes.len() ==> outcomes[i].0 == state.packages[i]
            }
            &&& spec_backend_of(state.package_manager) is None ==> outcomes.len() == 0
        },
{
}

/// Format independence: two documents with the same semantic content — the
/// same mathematical value under every key — determine the same desired
/// state, or the same missing field.
pub proof fn lemma_format_independence(
    first: Seq<(String, ConfigValue)>,
    second: Seq<(String, ConfigValue)>,
)
    requires
        forall|key: Seq<char>| doc_lookup_model(first, key) == doc_lookup_model(second, key),
    ensures
        spec_build(first) == spec_build(second),
{
    assert(doc_lookup_model(first, "hostname"@) == doc_lookup_model(second, "hostname"@));
    assert(doc_lookup_model(first, "package_manager"@) == doc_lookup_model(
        second,
        "package_manager"@,
    ));
    assert(doc_lookup_model(first, "packages"@) == doc_lookup_model(second, "packages"@));
}

/// A document whose `hostname` or `package_manager` does not resolve to text,
/// or whose `packages` does not resolve to a sequence, builds to a
/// missing-field failure; the engine then runs nothing, since a run starts
/// only from a loaded desired state.
pub proof fn lemma_missing_field_fails_build(entries: Seq<(String, ConfigValue)>)
    requires
        !(doc_lookup_model(entries, "hostname"@) matches Some(ValueModel::Text(_))) || !(
        doc_lookup_model(entries, "package_manager"@) matches Some(ValueModel::Text(_))) || !(
        doc_lookup_model(entries, "packages"@) matches Some(ValueModel::List(_))),
    ensures
        spec_build(entries) matches BuildOutcome::Missing(_),
{
}

} // verus!
