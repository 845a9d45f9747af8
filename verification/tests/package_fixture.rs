use npa_web::package_fixture::{
    package_fixture_from_wire, package_fixture_options, package_fixture_root,
    package_fixture_run_from_results, CommandDiagnosticRecord, CommandRecord, PackageFixtureId,
};

#[test]
fn package_fixture_mode_rejects_unknown_fixture_ids() {
    let error = package_fixture_from_wire("../npa-core/testdata/package/npa-std")
        .expect_err("browser values must be allowlist ids, not paths");

    assert!(error
        .user_message()
        .contains("../npa-core/testdata/package/npa-std"));
}

#[test]
fn fixture_ids_round_trip_through_the_wire() {
    for id in PackageFixtureId::all() {
        assert_eq!(PackageFixtureId::from_wire(id.as_str()), Some(id));
        assert_eq!(package_fixture_from_wire(id.as_str()), Ok(id));
        assert_eq!(id.label(), id.as_str());
    }
    assert_eq!(PackageFixtureId::NpaStd.as_str(), "npa-std");
    assert_eq!(PackageFixtureId::NpaMathlibSeed.as_str(), "npa-mathlib-seed");
    assert_eq!(PackageFixtureId::default(), PackageFixtureId::NpaStd);
}

#[test]
fn fixture_selection_rejects_near_misses() {
    for value in ["", "npa-std ", "NPA-STD", "npa_std", "npa-mathlib", "/npa-std"] {
        let error = package_fixture_from_wire(value).expect_err("only exact ids are accepted");
        assert_eq!(
            error.user_message(),
            format!("Unknown package fixture selection: {value}.")
        );
        assert_eq!(error.to_message(), error.user_message());
    }
}

#[test]
fn fixture_options_mark_the_selected_fixture() {
    let options = package_fixture_options(PackageFixtureId::NpaMathlibSeed);
    assert_eq!(options.len(), 2);
    assert_eq!(options[0].value, "npa-std");
    assert_eq!(options[0].label, "npa-std");
    assert!(!options[0].selected);
    assert_eq!(options[1].value, "npa-mathlib-seed");
    assert!(options[1].selected);
}

#[test]
fn fixture_root_joins_the_fixture_directory() {
    assert_eq!(
        package_fixture_root("/srv/npa-web", PackageFixtureId::NpaStd),
        "/srv/npa-web/../npa-core/testdata/package/npa-std"
    );
    assert_eq!(
        package_fixture_root("/srv/npa-web/", PackageFixtureId::NpaMathlibSeed),
        "/srv/npa-web/../npa-core/testdata/package/npa-mathlib-seed"
    );
    assert_eq!(
        package_fixture_root("", PackageFixtureId::NpaStd),
        "../npa-core/testdata/package/npa-std"
    );
}

fn diagnostic(reason: &str, module: Option<&str>, checker: Option<&str>) -> CommandDiagnosticRecord {
    CommandDiagnosticRecord {
        severity: "info".to_owned(),
        kind: "FastVerifier".to_owned(),
        reason_code: reason.to_owned(),
        module: module.map(str::to_owned),
        path: None,
        field: None,
        expected_value: None,
        actual_value: None,
        expected_hash: None,
        actual_hash: None,
        checker: checker.map(str::to_owned),
    }
}

fn record(command: &str, status: &str, passed: bool, diagnostics: Vec<CommandDiagnosticRecord>) -> CommandRecord {
    CommandRecord {
        command: command.to_owned(),
        status: status.to_owned(),
        passed,
        root: "/fixtures/npa-std".to_owned(),
        diagnostics,
    }
}

#[test]
fn fixture_run_summarizes_passing_commands() {
    let results = vec![
        record("package check", "passed", true, vec![]),
        record("package build-certs", "passed", true, vec![]),
        record(
            "package verify-certs",
            "passed",
            true,
            vec![
                diagnostic("module_verified", Some("Std.Logic.Eq"), Some("fast")),
                diagnostic("module_verified", None, None),
            ],
        ),
    ];
    let run = package_fixture_run_from_results(PackageFixtureId::NpaStd, "unused", &results);

    assert_eq!(run.status, "passed");
    assert_eq!(run.root, "/fixtures/npa-std");
    let steps = run
        .steps
        .iter()
        .map(|step| (step.command.as_str(), step.status.as_str(), step.diagnostic_count))
        .collect::<Vec<_>>();
    assert_eq!(
        steps,
        vec![
            ("package check", "passed", 0),
            ("package build-certs", "passed", 0),
            ("package verify-certs", "passed", 2),
        ]
    );
    assert_eq!(run.diagnostics.len(), 4);
    assert_eq!(run.diagnostics[0].reason, "command_completed");
    assert_eq!(run.diagnostics[0].kind, "Command");
    assert_eq!(run.diagnostics[0].severity, "info");
    assert_eq!(run.diagnostics[0].command, "package check");
    assert_eq!(
        run.diagnostics[0].detail,
        "status=passed;diagnostics=0;proof_evidence=false"
    );
    assert_eq!(run.diagnostics[2].command, "package verify-certs");
    assert_eq!(run.diagnostics[2].kind, "FastVerifier");
    assert_eq!(run.diagnostics[2].reason, "module_verified");
    assert_eq!(run.diagnostics[2].detail, "module=Std.Logic.Eq;checker=fast");
    assert_eq!(run.diagnostics[3].detail, "proof_evidence=false");
}

#[test]
fn fixture_run_fails_when_any_command_fails() {
    let mut failing = diagnostic("hash_mismatch", Some("Std.Nat.Basic"), None);
    failing.severity = "error".to_owned();
    failing.path = Some("Std/Nat/Basic".to_owned());
    failing.field = Some("certificate".to_owned());
    failing.expected_value = Some("1".to_owned());
    failing.actual_value = Some("2".to_owned());
    failing.expected_hash = Some("aa".to_owned());
    failing.actual_hash = Some("bb".to_owned());
    let results = vec![
        record("package check", "passed", true, vec![]),
        record("package build-certs", "failed", false, vec![failing]),
    ];
    let run = package_fixture_run_from_results(PackageFixtureId::NpaMathlibSeed, "unused", &results);

    assert_eq!(run.status, "failed");
    assert_eq!(run.fixture, PackageFixtureId::NpaMathlibSeed);
    assert_eq!(run.diagnostics.len(), 2);
    assert_eq!(run.diagnostics[1].severity, "error");
    assert_eq!(
        run.diagnostics[1].detail,
        "module=Std.Nat.Basic;path=Std/Nat/Basic;field=certificate;expected=1;actual=2;expected_hash=aa;actual_hash=bb"
    );
}

#[test]
fn fixture_run_without_results_uses_the_default_root() {
    let run = package_fixture_run_from_results(PackageFixtureId::NpaStd, "/default/root", &Vec::new());
    assert_eq!(run.status, "passed");
    assert_eq!(run.root, "/default/root");
    assert!(run.steps.is_empty());
    assert!(run.diagnostics.is_empty());
}

#[test]
fn fixture_run_view_keeps_every_field() {
    let results = vec![record(
        "package verify-certs",
        "passed",
        true,
        vec![diagnostic("module_verified", Some("<bad> & x"), None)],
    )];
    let run = package_fixture_run_from_results(PackageFixtureId::NpaStd, "", &results);
    let view = run.to_view();

    assert_eq!(view.status, "passed");
    assert_eq!(view.fixture_label, "npa-std");
    assert_eq!(view.root, "/fixtures/npa-std");
    assert_eq!(view.steps.len(), 1);
    assert_eq!(view.steps[0].command, "package verify-certs");
    assert_eq!(view.steps[0].diagnostic_count, 1);
    assert_eq!(view.diagnostics.len(), 1);
    assert_eq!(view.diagnostics[0].detail, "module=<bad> & x");
    assert_eq!(view.diagnostics[0].reason, "module_verified");
}
