use npa_web::flow::{
    check_canonical_name, parse_document_version, state_header_from_wire, validate_source_input,
    validate_tactic_input,
};
use npa_web::source_imports::{source_import_line_names, source_import_names};
use npa_web::state::{DemoMode, WebFlowErrorKind, MAX_SOURCE_BYTES, MAX_TACTIC_BYTES};
use npa_web::std_demo::STANDARD_DEMO_SOURCE;

#[test]
fn import_lines_yield_their_names() {
    assert_eq!(
        source_import_line_names("import Std.Nat.Basic\n  import\tA B\ntheorem x : Type := Type"),
        vec!["Std.Nat.Basic", "A", "B"]
    );
    assert_eq!(source_import_line_names("import\r\nimport"), vec!["", ""]);
    assert!(source_import_line_names("imports Std\nimportStd\n-- import A").is_empty());
    assert_eq!(source_import_line_names("\u{3000}import\u{2003}X"), vec!["X"]);
    assert!(source_import_line_names("").is_empty());
}

#[test]
fn import_names_are_sorted_and_unique() {
    let parsed = vec!["Std.Logic.Eq".to_owned(), "Alpha".to_owned()];
    assert_eq!(
        source_import_names("import Std.Nat.Basic Std.Logic.Eq\nimport Std.Nat.Basic", &parsed),
        vec!["Alpha", "Std.Logic.Eq", "Std.Nat.Basic"]
    );
    assert!(source_import_names("theorem t : Type := Type", &Vec::new()).is_empty());
}

#[test]
fn oversized_source_is_rejected_first() {
    let source = "x".repeat(MAX_SOURCE_BYTES + 1);
    let error = validate_source_input(&source, DemoMode::ImportFree, &Vec::new())
        .expect_err("oversized source should be rejected");
    assert_eq!(error.kind(), WebFlowErrorKind::SourceTooLarge);
    assert!(error.user_message().contains("Source input"));
    assert_eq!(error.user_message(), "Source input must be at most 131072 bytes.");

    let source = "x".repeat(MAX_SOURCE_BYTES);
    assert!(validate_source_input(&source, DemoMode::ImportFree, &Vec::new()).is_ok());
    let multibyte = "é".repeat(MAX_SOURCE_BYTES / 2 + 1);
    let error = validate_source_input(&multibyte, DemoMode::Standard, &Vec::new())
        .expect_err("the limit counts bytes");
    assert_eq!(error.kind(), WebFlowErrorKind::SourceTooLarge);
}

#[test]
fn import_free_demo_rejects_any_import() {
    let error = validate_source_input(
        "\timport\tStd.Nat.Basic\ntheorem id (A : Type) (x : A) : A := by exact x",
        DemoMode::ImportFree,
        &Vec::new(),
    )
    .expect_err("imports should be rejected before session creation");
    assert_eq!(error.kind(), WebFlowErrorKind::UnsupportedImport);
    assert_eq!(error.user_message(), "Imports are disabled in the import-free demo.");

    let error = validate_source_input("theorem t : Type := Type", DemoMode::ImportFree, &vec!["M".to_owned()])
        .expect_err("parsed imports count too");
    assert_eq!(error.kind(), WebFlowErrorKind::UnsupportedImport);
    assert!(validate_source_input("theorem t : Type := Type", DemoMode::ImportFree, &Vec::new()).is_ok());
}

#[test]
fn standard_demo_accepts_only_the_fixed_imports() {
    assert!(validate_source_input(STANDARD_DEMO_SOURCE, DemoMode::Standard, &Vec::new()).is_ok());

    let error = validate_source_input(
        "import Std.Nat.Basic\nimport Proofs.Ai.Bad\ntheorem bad : Type := Type",
        DemoMode::Standard,
        &Vec::new(),
    )
    .expect_err("standard demo should reject unowned imports");
    assert_eq!(error.kind(), WebFlowErrorKind::UnsupportedImport);
    assert!(error.user_message().contains("Proofs.Ai.Bad"));
    assert_eq!(
        error.user_message(),
        "The standard-library demo only allows fixed imports: Std.Nat.Basic, Std.Logic.Eq. Unsupported import: Proofs.Ai.Bad."
    );
}

#[test]
fn standard_demo_reports_the_first_unsupported_import() {
    let error = validate_source_input(
        "import Zeta Beta\nimport Std.Logic.Eq",
        DemoMode::Standard,
        &vec!["Gamma".to_owned()],
    )
    .expect_err("unsupported imports");
    assert!(error.user_message().ends_with("Unsupported import: Beta."));

    let error = validate_source_input("import\ntheorem t : Type := Type", DemoMode::Standard, &Vec::new())
        .expect_err("an import line without a name is unsupported");
    assert!(error.user_message().ends_with("Unsupported import: <empty>."));
}

#[test]
fn tactic_input_is_limited_to_4_kib() {
    assert!(validate_tactic_input(&"x".repeat(MAX_TACTIC_BYTES)).is_ok());
    let error = validate_tactic_input(&"x".repeat(MAX_TACTIC_BYTES + 1))
        .expect_err("oversized tactic should be rejected");
    assert_eq!(error.kind(), WebFlowErrorKind::TacticTooLarge);
    assert!(error.user_message().contains("Tactic input"));
    assert_eq!(error.to_message(), "Tactic input must be at most 4096 bytes.");
}

#[test]
fn document_versions_are_positive_integers() {
    assert_eq!(parse_document_version("1"), Ok(1));
    assert_eq!(parse_document_version("+42"), Ok(42));
    assert_eq!(parse_document_version("18446744073709551615"), Ok(u64::MAX));
    for bad in ["", "+", "-1", "1.0", " 1", "abc", "18446744073709551616"] {
        let error = parse_document_version(bad).expect_err("not an unsigned integer");
        assert_eq!(error.kind(), WebFlowErrorKind::InvalidDocumentVersion);
        assert_eq!(error.user_message(), "Document version must be an unsigned integer.");
    }
    let error = parse_document_version("0").expect_err("zero is not a version");
    assert_eq!(error.user_message(), "Document version must be greater than zero.");
    let error = parse_document_version("000").expect_err("zero is not a version");
    assert_eq!(error.kind(), WebFlowErrorKind::InvalidDocumentVersion);
}

#[test]
fn state_headers_carry_the_wire_ids() {
    let header = state_header_from_wire("hsess_1", "hdoc_1", "3").expect("valid header");
    assert_eq!(header.session_id, "hsess_1");
    assert_eq!(header.document_id, "hdoc_1");
    assert_eq!(header.document_version, 3);
    assert!(state_header_from_wire("hsess_1", "hdoc_1", "x").is_err());
}

#[test]
fn non_canonical_names_are_invalid() {
    assert!(check_canonical_name("module", true).is_ok());
    let error = check_canonical_name("module", false).expect_err("path-like module should be rejected");
    assert_eq!(error.kind(), WebFlowErrorKind::InvalidName);
    assert_eq!(error.user_message(), "module must be a canonical dotted NPA name.");
}
