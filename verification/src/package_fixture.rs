//! Package fixture mode: a fixed server-side allowlist of package fixtures,
//! and the summary of the package commands run on one of them.
//!
//! Browser input selects a fixture only by its allowlist id, never by a
//! path. The package commands themselves run outside this library; what
//! they report comes in as [`CommandRecord`]s, and the library turns it into
//! the run summary. Their diagnostics are untrusted metadata.
use vstd::prelude::*;

use crate::render;
use crate::text::{concat2, concat3, concat_all, join, join_strings, owned, str_eq, string_views};

verus! {

/// The directory, relative to the crate, that holds the package fixtures.
pub const PACKAGE_FIXTURES_ROOT: &'static str = "../npa-core/testdata/package";

/// The allowlisted package fixtures.
#[derive(Clone, Copy, Debug, PartialEq, Eq, Structural)]
pub enum PackageFixtureId {
    NpaStd,
    NpaMathlibSeed,
}

/// The wire id of a fixture.
pub open spec fn fixture_id_text(id: PackageFixtureId) -> Seq<char> {
    match id {
        PackageFixtureId::NpaStd => "npa-std"@,
        PackageFixtureId::NpaMathlibSeed => "npa-mathlib-seed"@,
    }
}

/// The fixture whose wire id is exactly `value`, if any.
pub open spec fn fixture_from_wire_text(value: Seq<char>) -> Option<PackageFixtureId> {
    if value == "npa-std"@ {
        Some(PackageFixtureId::NpaStd)
    } else if value == "npa-mathlib-seed"@ {
        Some(PackageFixtureId::NpaMathlibSeed)
    } else {
        None
    }
}

impl PackageFixtureId {
    /// Every fixture of the allowlist, in display order.
    pub fn all() -> (ids: Vec<PackageFixtureId>)
        ensures
            ids@ == seq![PackageFixtureId::NpaStd, PackageFixtureId::NpaMathlibSeed],
    {
        let mut ids = Vec::new();
        ids.push(PackageFixtureId::NpaStd);
        ids.push(PackageFixtureId::NpaMathlibSeed);
        assert(ids@ =~= seq![PackageFixtureId::NpaStd, PackageFixtureId::NpaMathlibSeed]);
        ids
    }

    /// The wire id of the fixture.
    pub fn as_str(self) -> (s: &'static str)
        ensures
            s@ == fixture_id_text(self),
    {
        match self {
            PackageFixtureId::NpaStd => "npa-std",
            PackageFixtureId::NpaMathlibSeed => "npa-mathlib-seed",
        }
    }

    /// The label shown for the fixture.
    pub fn label(self) -> (s: &'static str)
        ensures
            s@ == fixture_id_text(self),
    {
        match self {
            PackageFixtureId::NpaStd => "npa-std",
            PackageFixtureId::NpaMathlibSeed => "npa-mathlib-seed",
        }
    }

    /// The fixture's directory under the fixtures root.
    fn fixture_dir(self) -> (s: &'static str)
        ensures
            s@ == fixture_id_text(self),
    {
        match self {
            PackageFixtureId::NpaStd => "npa-std",
            PackageFixtureId::NpaMathlibSeed => "npa-mathlib-seed",
        }
    }

    /// The fixture whose wire id is exactly `value`, if any.
    pub fn from_wire(value: &str) -> (r: Option<Self>)
        ensures
            r == fixture_from_wire_text(value@),
            r matches Some(id) ==> fixture_id_text(id) == value@,
            r is None ==> (forall|id: PackageFixtureId| fixture_id_text(id) != value@),
    {
        if str_eq(value, "npa-std") {
            Some(PackageFixtureId::NpaStd)
        } else if str_eq(value, "npa-mathlib-seed") {
            Some(PackageFixtureId::NpaMathlibSeed)
        } else {
            proof {
                assert forall|id: PackageFixtureId| fixture_id_text(id) != value@ by {
                    match id {
                        PackageFixtureId::NpaStd => {},
                        PackageFixtureId::NpaMathlibSeed => {},
                    }
                }
            }
            None
        }
    }
}

impl Default for PackageFixtureId {
    fn default() -> (id: Self)
        ensures
            id == PackageFixtureId::NpaStd,
    {
        PackageFixtureId::NpaStd
    }
}

/// Reading a fixture's own wire id gives that fixture back, and a wire
/// value selects a fixture only when it is exactly that fixture's id.
pub proof fn lemma_fixture_wire_round_trip(id: PackageFixtureId, value: Seq<char>)
    ensures
        fixture_from_wire_text(fixture_id_text(id)) == Some(id),
        fixture_from_wire_text(value) == Some(id) ==> value == fixture_id_text(id),
{
    reveal_strlit("npa-std");
    reveal_strlit("npa-mathlib-seed");
    assert("npa-std"@ != "npa-mathlib-seed"@) by {
        assert("npa-std"@.len() != "npa-mathlib-seed"@.len());
    }
}

/// One package command diagnostic, as the package command reported it.
/// Each optional field holds the text that the command's value displays as.
#[derive(Clone, Debug, PartialEq, Eq)]
pub struct CommandDiagnosticRecord {
    pub severity: String,
    pub kind: String,
    pub reason_code: String,
    pub module: Option<String>,
    pub path: Option<String>,
    pub field: Option<String>,
    pub expected_value: Option<String>,
    pub actual_value: Option<String>,
    pub expected_hash: Option<String>,
    pub actual_hash: Option<String>,
    pub checker: Option<String>,
}

/// What one package command reported: its name, its status text, whether
/// it passed, the package root it ran on, and its diagnostics.
#[derive(Clone, Debug, PartialEq, Eq)]
pub struct CommandRecord {
    pub command: String,
    pub status: String,
    pub passed: bool,
    pub root: String,
    pub diagnostics: Vec<CommandDiagnosticRecord>,
}

/// The summary of a package fixture run.
#[derive(Clone, Debug, PartialEq, Eq)]
pub struct PackageFixtureRun {
    pub fixture: PackageFixtureId,
    pub status: String,
    pub root: String,
    pub steps: Vec<PackageFixtureStep>,
    pub diagnostics: Vec<PackageFixtureDiagnostic>,
}

/// One package command of a run.
#[derive(Clone, Debug, PartialEq, Eq)]
pub struct PackageFixtureStep {
    pub command: String,
    pub status: String,
    pub diagnostic_count: usize,
}

/// One diagnostic of a run.
#[derive(Clone, Debug, PartialEq, Eq)]
pub struct PackageFixtureDiagnostic {
    pub severity: String,
    pub command: String,
    pub kind: String,
    pub reason: String,
    pub detail: String,
}

/// The fields of a diagnostic.
pub ghost struct DiagnosticModel {
    pub severity: Seq<char>,
    pub command: Seq<char>,
    pub kind: Seq<char>,
    pub reason: Seq<char>,
    pub detail: Seq<char>,
}

/// The fields of `d`.
pub open spec fn diagnostic_model(d: PackageFixtureDiagnostic) -> DiagnosticModel {
    DiagnosticModel {
        severity: d.severity@,
        command: d.command@,
        kind: d.kind@,
        reason: d.reason@,
        detail: d.detail@,
    }
}

/// The fields of each diagnostic of `ds`.
pub open spec fn diagnostic_models(ds: Seq<PackageFixtureDiagnostic>) -> Seq<DiagnosticModel> {
    ds.map_values(|d: PackageFixtureDiagnostic| diagnostic_model(d))
}

/// `key` and the value, if there is one.
pub open spec fn optional_field(key: Seq<char>, value: Option<String>) -> Seq<Seq<char>> {
    match value {
        Some(v) => seq![key + v@],
        None => Seq::<Seq<char>>::empty(),
    }
}

/// The `key=value` fields of a diagnostic, for the values it has.
pub open spec fn detail_fields(d: CommandDiagnosticRecord) -> Seq<Seq<char>> {
    optional_field("module="@, d.module) + optional_field("path="@, d.path) + optional_field(
        "field="@,
        d.field,
    ) + optional_field("expected="@, d.expected_value) + optional_field(
        "actual="@,
        d.actual_value,
    ) + optional_field("expected_hash="@, d.expected_hash) + optional_field(
        "actual_hash="@,
        d.actual_hash,
    ) + optional_field("checker="@, d.checker)
}

/// The detail line of a diagnostic: its fields separated by `;`, or a
/// statement that it is no proof evidence when it has none.
pub open spec fn detail_text(d: CommandDiagnosticRecord) -> Seq<char> {
    if detail_fields(d).len() == 0 {
        "proof_evidence=false"@
    } else {
        join(detail_fields(d), ";"@)
    }
}

/// The diagnostics a command contributes to a run: one per diagnostic it
/// reported, or, when it reported none, one that records its completion.
pub open spec fn result_diagnostics(r: CommandRecord) -> Seq<DiagnosticModel> {
    if r.diagnostics@.len() == 0 {
        seq![
            DiagnosticModel {
                severity: "info"@,
                command: r.command@,
                kind: "Command"@,
                reason: "command_completed"@,
                detail: "status="@ + r.status@ + ";diagnostics=0;proof_evidence=false"@,
            },
        ]
    } else {
        r.diagnostics@.map_values(
            |d: CommandDiagnosticRecord|
                DiagnosticModel {
                    severity: d.severity@,
                    command: r.command@,
                    kind: d.kind@,
                    reason: d.reason_code@,
                    detail: detail_text(d),
                },
        )
    }
}

/// Every command contributes at least one diagnostic to a run, one per
/// diagnostic it reported, each attributed to the command; one that
/// reported none contributes a single completion record that claims no
/// proof evidence.
pub proof fn lemma_command_diagnostics(r: CommandRecord)
    ensures
        result_diagnostics(r).len() == if r.diagnostics@.len() == 0 {
            1
        } else {
            r.diagnostics@.len()
        },
        forall|i: int|
            0 <= i < result_diagnostics(r).len() ==> (#[trigger] result_diagnostics(r)[i]).command
                == r.command@,
        r.diagnostics@.len() == 0 ==> result_diagnostics(r)[0].reason == "command_completed"@
            && result_diagnostics(r)[0].detail == "status="@ + r.status@
            + ";diagnostics=0;proof_evidence=false"@,
        r.diagnostics@.len() > 0 ==> forall|i: int|
            0 <= i < r.diagnostics@.len() ==> (#[trigger] result_diagnostics(r)[i]).reason
                == r.diagnostics@[i].reason_code@,
{
}

/// The step that a command's report becomes.
pub open spec fn step_matches(step: PackageFixtureStep, r: CommandRecord) -> bool {
    &&& step.command@ == r.command@
    &&& step.status@ == r.status@
    &&& step.diagnostic_count == r.diagnostics@.len()
}

/// The overall status of a run: passed when every command passed.
pub open spec fn run_status_text(results: Seq<CommandRecord>) -> Seq<char> {
    if forall|i: int| 0 <= i < results.len() ==> (#[trigger] results[i]).passed {
        "passed"@
    } else {
        "failed"@
    }
}

/// The error for a fixture selection that is not on the allowlist.
#[derive(Debug, Clone, PartialEq, Eq)]
pub struct PackageFixtureError {
    message: String,
}

impl PackageFixtureError {
    /// The message shown to the user.
    pub closed spec fn message_view(&self) -> Seq<char> {
        self.message@
    }

    /// The error for the selection `value`.
    pub fn unknown_fixture(value: &str) -> (e: Self)
        ensures
            e.message_view() == "Unknown package fixture selection: "@ + value@ + "."@,
    {
        PackageFixtureError { message: concat3("Unknown package fixture selection: ", value, ".") }
    }

    /// The message shown to the user.
    pub fn user_message(&self) -> (s: &str)
        ensures
            s@ == self.message_view(),
    {
        self.message.as_str()
    }

    /// The error as displayed: its message.
    pub fn to_message(&self) -> (s: String)
        ensures
            s@ == self.message_view(),
    {
        self.message.clone()
    }
}

impl PackageFixtureStep {
    fn to_view(&self) -> (v: render::PackageFixtureStepView<'_>)
        ensures
            v.command@ == self.command@,
            v.status@ == self.status@,
            v.diagnostic_count == self.diagnostic_count,
    {
        render::PackageFixtureStepView {
            command: self.command.as_str(),
            status: self.status.as_str(),
            diagnostic_count: self.diagnostic_count,
        }
    }
}

impl PackageFixtureDiagnostic {
    fn to_view(&self) -> (v: render::PackageFixtureDiagnosticView<'_>)
        ensures
            v.severity@ == self.severity@,
            v.command@ == self.command@,
            v.kind@ == self.kind@,
            v.reason@ == self.reason@,
            v.detail@ == self.detail@,
    {
        render::PackageFixtureDiagnosticView {
            severity: self.severity.as_str(),
            command: self.command.as_str(),
            kind: self.kind.as_str(),
            reason: self.reason.as_str(),
            detail: self.detail.as_str(),
        }
    }
}

impl PackageFixtureRun {
    /// The run as the result panel shows it: every field as it is, the
    /// fixture by its label.
    pub fn to_view(&self) -> (v: render::PackageFixtureResultView<'_>)
        ensures
            v.status@ == self.status@,
            v.fixture_label@ == fixture_id_text(self.fixture),
            v.root@ == self.root@,
            v.steps@.len() == self.steps@.len(),
            forall|i: int|
                0 <= i < v.steps@.len() ==> {
                    &&& (#[trigger] v.steps@[i]).command@ == self.steps@[i].command@
                    &&& v.steps@[i].status@ == self.steps@[i].status@
                    &&& v.steps@[i].diagnostic_count == self.steps@[i].diagnostic_count
                },
            v.diagnostics@.len() == self.diagnostics@.len(),
            forall|i: int|
                0 <= i < v.diagnostics@.len() ==> {
                    &&& (#[trigger] v.diagnostics@[i]).severity@ == self.diagnostics@[i].severity@
                    &&& v.diagnostics@[i].command@ == self.diagnostics@[i].command@
                    &&& v.diagnostics@[i].kind@ == self.diagnostics@[i].kind@
                    &&& v.diagnostics@[i].reason@ == self.diagnostics@[i].reason@
                    &&& v.diagnostics@[i].detail@ == self.diagnostics@[i].detail@
                },
    {
        let mut steps: Vec<render::PackageFixtureStepView<'_>> = Vec::new();
        let mut i: usize = 0;
        while i < self.steps.len()
            invariant
                i <= self.steps.len(),
                steps@.len() == i,
                forall|k: int|
                    0 <= k < i ==> {
                        &&& (#[trigger] steps@[k]).command@ == self.steps@[k].command@
                        &&& steps@[k].status@ == self.steps@[k].status@
                        &&& steps@[k].diagnostic_count == self.steps@[k].diagnostic_count
                    },
            decreases self.steps.len() - i,
        {
            steps.push(self.steps[i].to_view());
            i += 1;
        }
        let mut diagnostics: Vec<render::PackageFixtureDiagnosticView<'_>> = Vec::new();
        let mut j: usize = 0;
        while j < self.diagnostics.len()
            invariant
                j <= self.diagnostics.len(),
                diagnostics@.len() == j,
                forall|k: int|
                    0 <= k < j ==> {
                        &&& (#[trigger] diagnostics@[k]).severity@
                            == self.diagnostics@[k].severity@
                        &&& diagnostics@[k].command@ == self.diagnostics@[k].command@
                        &&& diagnostics@[k].kind@ == self.diagnostics@[k].kind@
                        &&& diagnostics@[k].reason@ == self.diagnostics@[k].reason@
                        &&& diagnostics@[k].detail@ == self.diagnostics@[k].detail@
                    },
            decreases self.diagnostics.len() - j,
        {
            diagnostics.push(self.diagnostics[j].to_view());
            j += 1;
        }
        render::PackageFixtureResultView {
            status: self.status.as_str(),
            fixture_label: self.fixture.label(),
            root: self.root.as_str(),
            steps,
            diagnostics,
        }
    }
}

/// `base` with the relative path `rel` appended, as `PathBuf::push` does
/// on Unix: a `/` between the two unless `base` is empty or already ends
/// with one.
pub open spec fn path_join(base: Seq<char>, rel: Seq<char>) -> Seq<char> {
    if base.len() == 0 || base.last() == '/' {
        base + rel
    } else {
        base + "/"@ + rel
    }
}

/// `base` with the relative path `rel` appended.
fn join_path(base: &str, rel: &str) -> (r: String)
    ensures
        r@ == path_join(base@, rel@),
{
    let chars = crate::text::chars_of(base);
    if chars.len() == 0 || chars[chars.len() - 1] == '/' {
        concat2(base, rel)
    } else {
        concat3(base, "/", rel)
    }
}

/// The directory of a fixture: the fixtures root under `manifest_dir`,
/// then the fixture's directory.
pub fn package_fixture_root(manifest_dir: &str, fixture: PackageFixtureId) -> (r: String)
    ensures
        r@ == path_join(path_join(manifest_dir@, PACKAGE_FIXTURES_ROOT@), fixture_id_text(fixture)),
{
    let root = join_path(manifest_dir, PACKAGE_FIXTURES_ROOT);
    join_path(root.as_str(), fixture.fixture_dir())
}

/// The entries of the fixture selector, with `selected` marked.
pub fn package_fixture_options(selected: PackageFixtureId) -> (options: Vec<
    render::PackageFixtureOptionView<'static>,
>)
    ensures
        options@.len() == 2,
        options@[0].value@ == fixture_id_text(PackageFixtureId::NpaStd),
        options@[1].value@ == fixture_id_text(PackageFixtureId::NpaMathlibSeed),
        forall|i: int|
            0 <= i < options@.len() ==> (#[trigger] options@[i]).label@ == options@[i].value@,
        options@[0].selected == (selected == PackageFixtureId::NpaStd),
        options@[1].selected == (selected == PackageFixtureId::NpaMathlibSeed),
{
    let ids = PackageFixtureId::all();
    let mut options: Vec<render::PackageFixtureOptionView<'static>> = Vec::new();
    let mut i: usize = 0;
    while i < ids.len()
        invariant
            i <= ids.len(),
            ids@ == seq![PackageFixtureId::NpaStd, PackageFixtureId::NpaMathlibSeed],
            options@.len() == i,
            forall|k: int|
                0 <= k < i ==> {
                    &&& (#[trigger] options@[k]).value@ == fixture_id_text(ids@[k])
                    &&& options@[k].label@ == fixture_id_text(ids@[k])
                    &&& options@[k].selected == (ids@[k] == selected)
                },
        decreases ids.len() - i,
    {
        let fixture = ids[i];
        options.push(
            render::PackageFixtureOptionView {
                value: fixture.as_str(),
                label: fixture.label(),
                selected: fixture == selected,
            },
        );
        i += 1;
    }
    options
}

/// The fixture that a browser value selects, or the error for a value
/// that is not exactly an allowlisted id.
pub fn package_fixture_from_wire(value: &str) -> (r: Result<PackageFixtureId, PackageFixtureError>)
    ensures
        r matches Ok(id) ==> fixture_id_text(id) == value@ && fixture_from_wire_text(value@) == Some(
            id,
        ),
        r matches Err(e) ==> fixture_from_wire_text(value@) is None && (forall|id: PackageFixtureId| fixture_id_text(id) != value@)
            && e.message_view() == "Unknown package fixture selection: "@ + value@ + "."@,
{
    match PackageFixtureId::from_wire(value) {
        Some(id) => Ok(id),
        None => Err(PackageFixtureError::unknown_fixture(value)),
    }
}

/// Appends `key` and the value to `fields`, if there is a value.
fn push_optional_field(fields: &mut Vec<String>, key: &str, value: &Option<String>)
    ensures
        string_views(final(fields)@) == string_views(old(fields)@) + optional_field(key@, *value),
{
    match value {
        Some(v) => {
            let ghost before = fields@;
            fields.push(concat2(key, v.as_str()));
            assert(string_views(fields@) =~= string_views(before) + optional_field(key@, *value));
        },
        None => {
            assert(string_views(fields@) =~= string_views(fields@) + optional_field(key@, *value));
        },
    }
}

/// The detail line of a diagnostic.
fn diagnostic_detail(diagnostic: &CommandDiagnosticRecord) -> (detail: String)
    ensures
        detail@ == detail_text(*diagnostic),
{
    let mut fields: Vec<String> = Vec::new();
    assert(string_views(fields@) =~= Seq::<Seq<char>>::empty());
    push_optional_field(&mut fields, "module=", &diagnostic.module);
    push_optional_field(&mut fields, "path=", &diagnostic.path);
    push_optional_field(&mut fields, "field=", &diagnostic.field);
    push_optional_field(&mut fields, "expected=", &diagnostic.expected_value);
    push_optional_field(&mut fields, "actual=", &diagnostic.actual_value);
    push_optional_field(&mut fields, "expected_hash=", &diagnostic.expected_hash);
    push_optional_field(&mut fields, "actual_hash=", &diagnostic.actual_hash);
    push_optional_field(&mut fields, "checker=", &diagnostic.checker);
    assert(string_views(fields@) =~= detail_fields(*diagnostic));
    if fields.len() == 0 {
        owned("proof_evidence=false")
    } else {
        join_strings(&fields, ";")
    }
}

/// The diagnostics a command contributes to a run.
fn diagnostics_for_result(result: &CommandRecord) -> (ds: Vec<PackageFixtureDiagnostic>)
    ensures
        diagnostic_models(ds@) == result_diagnostics(*result),
{
    let mut ds: Vec<PackageFixtureDiagnostic> = Vec::new();
    if result.diagnostics.len() == 0 {
        let mut detail = concat2("status=", result.status.as_str());
        crate::text::push_str(&mut detail, ";diagnostics=0;proof_evidence=false");
        ds.push(
            PackageFixtureDiagnostic {
                severity: owned("info"),
                command: owned(result.command.as_str()),
                kind: owned("Command"),
                reason: owned("command_completed"),
                detail,
            },
        );
        assert(diagnostic_models(ds@) =~= result_diagnostics(*result));
        return ds;
    }
    let ghost expected = result_diagnostics(*result);
    let mut i: usize = 0;
    while i < result.diagnostics.len()
        invariant
            i <= result.diagnostics.len(),
            result.diagnostics@.len() > 0,
            expected == result_diagnostics(*result),
            diagnostic_models(ds@) == expected.take(i as int),
        decreases result.diagnostics.len() - i,
    {
        let d = &result.diagnostics[i];
        let entry = PackageFixtureDiagnostic {
            severity: owned(d.severity.as_str()),
            command: owned(result.command.as_str()),
            kind: owned(d.kind.as_str()),
            reason: owned(d.reason_code.as_str()),
            detail: diagnostic_detail(d),
        };
        let ghost before = ds@;
        ds.push(entry);
        assert(diagnostic_models(ds@) =~= diagnostic_models(before).push(
            diagnostic_model(entry),
        ));
        assert(expected.take(i + 1) =~= expected.take(i as int).push(expected[i as int]));
        i += 1;
    }
    assert(expected.take(i as int) =~= expected);
    ds
}

/// The summary of a fixture run from what its commands reported, in the
/// order they ran: passed when every command passed, the root that the
/// first command reported (`default_root` when there is none), one step per
/// command, and each command's diagnostics in turn.
pub fn package_fixture_run_from_results(
    fixture: PackageFixtureId,
    default_root: &str,
    results: &Vec<CommandRecord>,
) -> (run: PackageFixtureRun)
    ensures
        run.fixture == fixture,
        run.status@ == run_status_text(results@),
        (forall|i: int| 0 <= i < results@.len() ==> (#[trigger] results@[i]).passed)
            ==> run.status@ == "passed"@,
        (exists|i: int| 0 <= i < results@.len() && !(#[trigger] results@[i]).passed)
            ==> run.status@ == "failed"@,
        run.root@ == (if results@.len() > 0 {
            results@[0].root@
        } else {
            default_root@
        }),
        run.steps@.len() == results@.len(),
        forall|i: int|
            0 <= i < results@.len() ==> step_matches(#[trigger] run.steps@[i], results@[i]),
        forall|i: int|
            0 <= i < results@.len() ==> {
                &&& (#[trigger] run.steps@[i]).command@ == results@[i].command@
                &&& run.steps@[i].status@ == results@[i].status@
                &&& run.steps@[i].diagnostic_count == results@[i].diagnostics@.len()
            },
        diagnostic_models(run.diagnostics@) == concat_all(
            results@.map_values(|r: CommandRecord| result_diagnostics(r)),
        ),
{
    let mut all_passed = true;
    let mut steps: Vec<PackageFixtureStep> = Vec::new();
    let mut diagnostics: Vec<PackageFixtureDiagnostic> = Vec::new();
    let ghost f = |r: CommandRecord| result_diagnostics(r);
    let mut i: usize = 0;
    assert(results@.map_values(f).take(0) =~= Seq::<Seq<DiagnosticModel>>::empty());
    while i < results.len()
        invariant
            i <= results.len(),
            f == (|r: CommandRecord| result_diagnostics(r)),
            all_passed == (forall|k: int| 0 <= k < i ==> (#[trigger] results@[k]).passed),
            steps@.len() == i,
            forall|k: int| 0 <= k < i ==> step_matches(#[trigger] steps@[k], results@[k]),
            diagnostic_models(diagnostics@) == concat_all(results@.map_values(f).take(i as int)),
        decreases results.len() - i,
    {
        let result = &results[i];
        if !result.passed {
            all_passed = false;
        }
        steps.push(
            PackageFixtureStep {
                command: owned(result.command.as_str()),
                status: owned(result.status.as_str()),
                diagnostic_count: result.diagnostics.len(),
            },
        );
        let ds = diagnostics_for_result(result);
        let ghost before = diagnostics@;
        let mut j: usize = 0;
        while j < ds.len()
            invariant
                j <= ds.len(),
                diagnostics@.len() == before.len() + j,
                diagnostic_models(diagnostics@) == diagnostic_models(before) + diagnostic_models(
                    ds@,
                ).take(j as int),
            decreases ds.len() - j,
        {
            let d = &ds[j];
            let copy = PackageFixtureDiagnostic {
                severity: owned(d.severity.as_str()),
                command: owned(d.command.as_str()),
                kind: owned(d.kind.as_str()),
                reason: owned(d.reason.as_str()),
                detail: owned(d.detail.as_str()),
            };
            let ghost mid = diagnostics@;
            diagnostics.push(copy);
            assert(diagnostic_models(diagnostics@) =~= diagnostic_models(mid).push(
                diagnostic_model(copy),
            ));
            assert(diagnostic_models(ds@).take(j + 1) =~= diagnostic_models(ds@).take(
                j as int,
            ).push(diagnostic_model(ds@[j as int])));
            j += 1;
        }
        assert(diagnostic_models(ds@).take(j as int) =~= diagnostic_models(ds@));
        assert(results@.map_values(f).take(i + 1).drop_last() =~= results@.map_values(f).take(
            i as int,
        ));
        assert(results@.map_values(f).take(i + 1).last() == f(results@[i as int]));
        i += 1;
    }
    assert(results@.map_values(f).take(i as int) =~= results@.map_values(f));
    let status = if all_passed {
        owned("passed")
    } else {
        owned("failed")
    };
    let root = if results.len() > 0 {
        owned(results[0].root.as_str())
    } else {
        owned(default_root)
    };
    proof {
        law_run_passes_only_when_every_command_passed(results@, status@);
    }
    PackageFixtureRun { fixture, status, root, steps, diagnostics }
}

/// A run passes exactly when every one of its commands passed: a single
/// failed command, wherever it stands among the results, fails the run.
pub proof fn law_run_passes_only_when_every_command_passed(
    results: Seq<CommandRecord>,
    status: Seq<char>,
)
    requires
        status == run_status_text(results),
    ensures
        (forall|i: int| 0 <= i < results.len() ==> (#[trigger] results[i]).passed) ==> status
            == "passed"@,
        (exists|i: int| 0 <= i < results.len() && !(#[trigger] results[i]).passed) ==> status
            == "failed"@,
{
}

} // verus!
