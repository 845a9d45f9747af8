use npa_web::flow::{
    parse_document_version, state_header_from_wire,
    diagnostic_messages, format_open_goals, hover_result, lsp_goal_request_parts,
    lsp_hover_request, lsp_state_request_parts, lsp_tactic_error_message, selected_goal,
    session_create_error, session_store_unavailable, standard_demo_fixture_error, start_error,
    state_lookup_error, tactic_run_messages, verify_result, workspace_from_state,
    CodeActionRecord, CommandLink, CompletionRecord, DiagnosticRecord, DiagnosticSeverity,
    GoalRecord, HoverLookup, HoverRecord, ProofStateRecord, StartFailure, StateHeader,
    TacticErrorReport, VerifyOutcome,
};
use npa_web::state::{
    CreateSessionInput, DemoMode, LspPanelInput, RunTacticInput, VerifyInput, WebBinding,
    WebFlowErrorKind, WebImportSummary, WebLspCodeActionResult, WebLspCompletionResult,
    WebLspHoverResult, WebMessage, DEFAULT_LSP_HOVER_NAME,
};
use npa_web::std_demo::check_fixture_module;

fn header() -> StateHeader {
    StateHeader {
        session_id: "hsess_1".to_owned(),
        document_id: "hdoc_1".to_owned(),
        document_version: 12,
    }
}

fn goal(id: &str) -> GoalRecord {
    GoalRecord {
        goal_id: id.to_owned(),
        context: vec![WebBinding { name: "A".to_owned(), ty: "Type".to_owned() }],
        target: format!("target of {id}"),
    }
}

fn state(selected: Option<&str>, goals: Vec<GoalRecord>) -> ProofStateRecord {
    ProofStateRecord {
        state_id: "hstate_1".to_owned(),
        selected_goal: selected.map(str::to_owned),
        goals,
        messages: vec![
            DiagnosticRecord { severity: DiagnosticSeverity::Warning, message: "unused".to_owned() },
            DiagnosticRecord { severity: DiagnosticSeverity::Error, message: "bad".to_owned() },
        ],
    }
}

#[test]
fn demo_modes_round_trip_and_fill_the_form() {
    for demo in DemoMode::all() {
        assert_eq!(DemoMode::from_wire(demo.as_str()), Some(demo));
        let input = CreateSessionInput::for_demo(demo);
        assert_eq!(input.demo, demo);
        assert_eq!(input.source, demo.default_source());
        assert_eq!(input.module, demo.default_module());
        assert_eq!(input.theorem, demo.default_theorem());
    }
    assert_eq!(DemoMode::from_wire("Standard"), None);
    assert_eq!(DemoMode::Standard.label(), "Standard library");
    assert_eq!(DemoMode::default(), DemoMode::ImportFree);
    let input = CreateSessionInput::default();
    assert_eq!(input.module, "Scratch");
    assert_eq!(input.theorem, "Scratch.id");
    assert_eq!(CreateSessionInput::for_demo(DemoMode::Standard).module, "StdDemo");
}

#[test]
fn workspace_shows_the_first_goal_without_a_selection() {
    let ws = workspace_from_state(&header(), &state(None, vec![goal("hgoal_1"), goal("hgoal_2")]), String::new(), Vec::new());
    assert_eq!(ws.session_id, "hsess_1");
    assert_eq!(ws.document_id, "hdoc_1");
    assert_eq!(ws.document_version, "12");
    assert_eq!(ws.state_id, "hstate_1");
    assert_eq!(ws.goal_id, "hgoal_1");
    assert!(ws.goal.has_goal);
    assert_eq!(ws.goal.label, "hgoal_1");
    assert_eq!(ws.goal.target, "target of hgoal_1");
    assert_eq!(ws.goal.context, vec![WebBinding { name: "A".to_owned(), ty: "Type".to_owned() }]);
    assert_eq!(ws.messages[0], WebMessage { severity: "warning".to_owned(), text: "unused".to_owned() });
    assert_eq!(ws.messages[1].severity, "error");
    assert_eq!(ws.verify.status, "not run");
    assert_eq!(ws.verify.detail, "Verify after all goals are closed.");
    assert_eq!(ws.lsp.session_id, ws.session_id);
    assert_eq!(ws.lsp.document_version, "12");
    assert_eq!(ws.lsp.state_id, ws.state_id);
    assert_eq!(ws.lsp.goal_id, ws.goal_id);
    assert_eq!(ws.lsp.hover_name, DEFAULT_LSP_HOVER_NAME);
    assert_eq!(ws.lsp.hover.status, "not requested");
    assert_eq!(ws.lsp.completions.status, "not requested");
    assert_eq!(ws.lsp.code_actions.status, "not requested");
}

#[test]
fn workspace_shows_the_selected_goal() {
    let s = state(Some("hgoal_2"), vec![goal("hgoal_1"), goal("hgoal_2"), goal("hgoal_2")]);
    assert_eq!(selected_goal(&s), Some(1));
    let extra = vec![WebMessage::info("tactic status: ok".to_owned())];
    let ws = workspace_from_state(&header(), &s, "intro A".to_owned(), extra);
    assert_eq!(ws.goal_id, "hgoal_2");
    assert_eq!(ws.goal.target, "target of hgoal_2");
    assert_eq!(ws.tactic_input, "intro A");
    assert_eq!(ws.messages.len(), 3);
    assert_eq!(ws.messages[2].text, "tactic status: ok");
}

#[test]
fn workspace_without_goals_has_no_goal() {
    let missing = state(Some("hgoal_9"), vec![goal("hgoal_1")]);
    assert_eq!(selected_goal(&missing), None);
    let ws = workspace_from_state(&header(), &missing, String::new(), Vec::new());
    assert!(!ws.goal.has_goal);
    assert!(ws.goal_id.is_empty());
    assert!(ws.goal.label.is_empty());
    let closed = state(None, Vec::new());
    let ws = workspace_from_state(&header(), &closed, "exact x".to_owned(), Vec::new());
    assert!(!ws.goal.has_goal);
    assert!(ws.lsp.goal_id.is_empty());
}

#[test]
fn workspace_inputs_address_the_same_state() {
    let ws = workspace_from_state(&header(), &state(None, vec![goal("hgoal_1")]), String::new(), Vec::new());
    let run = RunTacticInput::for_workspace(&ws, "intro A");
    assert_eq!(run.session_id, "hsess_1");
    assert_eq!(run.document_version, "12");
    assert_eq!(run.state_id, "hstate_1");
    assert_eq!(run.goal_id, "hgoal_1");
    assert_eq!(run.tactic, "intro A");
    let verify = VerifyInput::for_workspace(&ws);
    assert_eq!(verify.document_id, "hdoc_1");
    assert_eq!(verify.state_id, "hstate_1");
    let lsp = LspPanelInput::for_workspace(&ws);
    assert_eq!(lsp.goal_id, "hgoal_1");
    assert_eq!(lsp.hover_name, "Scratch.id");
    let back = state_header_from_wire(&run.session_id, &run.document_id, &run.document_version)
        .expect("the workspace's ids read back");
    assert_eq!(back, header());
    let big = StateHeader { document_version: u64::MAX, ..header() };
    let ws = workspace_from_state(&big, &state(None, Vec::new()), String::new(), Vec::new());
    assert_eq!(ws.document_version, "18446744073709551615");
    assert_eq!(parse_document_version(&ws.document_version), Ok(u64::MAX));
}

#[test]
fn workspace_view_keeps_every_field() {
    let ws = workspace_from_state(&header(), &state(None, vec![goal("hgoal_1")]), "intro A".to_owned(), Vec::new());
    let view = ws.to_view();
    assert_eq!(view.session_id, ws.session_id);
    assert_eq!(view.document_version, "12");
    assert_eq!(view.tactic_input, "intro A");
    assert_eq!(view.goal.has_goal, ws.goal.has_goal);
    assert_eq!(view.goal.label, "hgoal_1");
    assert_eq!(view.goal.context[0].name, "A");
    assert_eq!(view.goal.context[0].ty, "Type");
    assert_eq!(view.messages.items.len(), 2);
    assert_eq!(view.messages.items[1].text, "bad");
    assert_eq!(view.verify.status, "not run");
    assert!(view.verify.imports.is_empty());
    assert_eq!(view.lsp.hover_name, "Scratch.id");
    assert_eq!(view.lsp.hover.status, "not requested");
}

#[test]
fn tactic_messages_follow_the_diagnostics() {
    let diagnostics = vec![DiagnosticRecord { severity: DiagnosticSeverity::Error, message: "<b>bad</b>".to_owned() }];
    let error = TacticErrorReport { kind: "tactic_failed".to_owned(), message: "no goal".to_owned() };
    let messages = tactic_run_messages(&diagnostics, "failed", Some(error));
    assert_eq!(messages.len(), 3);
    assert_eq!(messages[0].text, "<b>bad</b>");
    assert_eq!(messages[1], WebMessage { severity: "info".to_owned(), text: "tactic status: failed".to_owned() });
    assert_eq!(messages[2], WebMessage { severity: "error".to_owned(), text: "tactic_failed: no goal".to_owned() });
    assert_eq!(tactic_run_messages(&Vec::new(), "ok", None).len(), 1);
    assert_eq!(diagnostic_messages(&diagnostics)[0].severity, "error");
}

#[test]
fn verification_outcomes_become_the_verify_panel() {
    let verified = verify_result(VerifyOutcome::Verified {
        status: "verified".to_owned(),
        theorem_name: "Scratch.id".to_owned(),
        root_decl_certificate_hash: "sha256:root".to_owned(),
        certificate_hash: "sha256:cert".to_owned(),
        imports: vec![WebImportSummary {
            module: "Std.Logic.Eq".to_owned(),
            export_hash: "sha256:export".to_owned(),
            certificate_hash: "sha256:icert".to_owned(),
            axiom_count: 0,
        }],
    })
    .expect("verified");
    assert_eq!(verified.status, "verified");
    assert_eq!(verified.detail, "Scratch.id verified.");
    assert_eq!(verified.root_decl_certificate_hash, "sha256:root");
    assert_eq!(verified.imports[0].module, "Std.Logic.Eq");

    let open = verify_result(VerifyOutcome::OpenGoals(vec!["hgoal_1".to_owned(), "hgoal_2".to_owned()]))
        .expect("open-goal verification should be user-facing");
    assert_eq!(open.status, "open goals");
    assert_eq!(open.detail, "Open goals: hgoal_1, hgoal_2.");
    assert!(open.detail.contains("hgoal_"));
    assert!(open.certificate_hash.is_empty());
    assert_eq!(format_open_goals(&Vec::new()), "Open goals remain.");

    let handoff = verify_result(VerifyOutcome::CertificateHandoff("handoff failed".to_owned())).expect("shown");
    assert_eq!(handoff.status, "error");
    assert_eq!(handoff.detail, "handoff failed");

    let error = verify_result(VerifyOutcome::StateLookupFailed("UnknownState".to_owned())).expect_err("lookup");
    assert_eq!(error.kind(), WebFlowErrorKind::HumanStateLookup);
    assert_eq!(error.user_message(), "Human proof state lookup failed: UnknownState.");
}

fn panel_input(session: &str, version: &str, goal: &str, hover: &str) -> LspPanelInput {
    LspPanelInput {
        session_id: session.to_owned(),
        document_id: "hdoc_1".to_owned(),
        document_version: version.to_owned(),
        state_id: "hstate_1".to_owned(),
        goal_id: goal.to_owned(),
        hover_name: hover.to_owned(),
    }
}

#[test]
fn lsp_requests_need_an_active_state() {
    let empty = panel_input("", "", "", DEFAULT_LSP_HOVER_NAME);
    assert_eq!(lsp_state_request_parts(&empty).unwrap_err(), "No active Human state.");
    assert_eq!(lsp_goal_request_parts(&empty).unwrap_err(), "No active Human state.");
    assert_eq!(lsp_hover_request(&empty).unwrap_err().status, "No active Human state.");

    let bad = panel_input("hsess_1", "zero", "hgoal_1", "Eq.refl");
    assert_eq!(lsp_state_request_parts(&bad).unwrap_err(), "Human LSP request ids are invalid.");
    let no_goal = panel_input("hsess_1", "2", "", "Eq.refl");
    assert_eq!(lsp_goal_request_parts(&no_goal).unwrap_err(), "No selected goal.");

    let ok = panel_input("hsess_1", "2", "hgoal_1", "  Eq.refl\t");
    let (header, state_id, goal_id) = lsp_goal_request_parts(&ok).expect("parts");
    assert_eq!(header.document_version, 2);
    assert_eq!(state_id, "hstate_1");
    assert_eq!(goal_id, "hgoal_1");
    let (_, _, name) = lsp_hover_request(&ok).expect("hover parts");
    assert_eq!(name, "Eq.refl");
    let blank = panel_input("hsess_1", "2", "hgoal_1", " \u{a0} ");
    assert_eq!(lsp_hover_request(&blank).unwrap_err().status, "Enter a theorem name for hover.");
}

#[test]
fn hover_results_show_the_theorem() {
    let record = HoverRecord {
        contents: "```npa\nEq.refl\n```".to_owned(),
        theorem_name: "Eq.refl".to_owned(),
        module: "Std.Logic.Eq".to_owned(),
        kind: "theorem".to_owned(),
        statement: "A & B".to_owned(),
        attributes: vec!["simp".to_owned(), "refl".to_owned()],
        uses_axioms: true,
        axiom_dependency_count: 2,
        export_hash: Some("sha256:export".to_owned()),
        certificate_hash: None,
        decl_interface_hash: "sha256:iface".to_owned(),
    };
    let hover = hover_result(HoverLookup::Found(record.clone()));
    assert_eq!(hover.status, "found");
    assert_eq!(hover.theorem_name, "Eq.refl");
    assert_eq!(hover.attributes, "simp, refl");
    assert_eq!(hover.axioms, "2 axiom(s)");
    assert_eq!(hover.export_hash, "sha256:export");
    assert_eq!(hover.certificate_hash, "");
    assert_eq!(hover.decl_interface_hash, "sha256:iface");
    let plain = WebLspHoverResult::from_hover(HoverRecord { attributes: Vec::new(), uses_axioms: false, ..record });
    assert_eq!(plain.attributes, "none");
    assert_eq!(plain.axioms, "none");
    assert_eq!(hover_result(HoverLookup::NotFound).status, "No hover result.");
    assert_eq!(hover_result(HoverLookup::Failed).status, "Human LSP hover lookup failed.");
    assert_eq!(WebLspHoverResult::idle().status, "not requested");
}

#[test]
fn completion_and_code_action_panels_count_their_items() {
    let items = vec![CompletionRecord {
        label: "exact <bad>".to_owned(),
        kind: "tactic".to_owned(),
        detail: "uses &".to_owned(),
        insert_text: None,
        command: Some(CommandLink { title: "Search".to_owned(), command: "npa.human.search.for_goal".to_owned() }),
    }];
    let completions = WebLspCompletionResult::from_items(items, String::new());
    assert_eq!(completions.status, "1 completion item(s)");
    assert!(completions.error.is_empty());
    assert_eq!(completions.items[0].insert_text, "");
    assert_eq!(completions.items[0].command, "Search (npa.human.search.for_goal)");
    assert_eq!(WebLspCompletionResult::message("No selected goal.").status, "No selected goal.");

    let actions = vec![CodeActionRecord {
        title: "Run <bad>".to_owned(),
        kind: "quickfix".to_owned(),
        tactic: Some("exact <bad>".to_owned()),
        command: None,
        diagnostic_count: 3,
    }];
    let error = lsp_tactic_error_message(Some(TacticErrorReport { kind: "k".to_owned(), message: "m".to_owned() }));
    assert_eq!(error, "k: m");
    let panel = WebLspCodeActionResult::from_actions(actions, error);
    assert_eq!(panel.status, "1 code action(s)");
    assert_eq!(panel.error, "k: m");
    assert_eq!(panel.actions[0].tactic, "exact <bad>");
    assert_eq!(panel.actions[0].command, "");
    assert_eq!(panel.actions[0].diagnostic_count, 3);
    assert_eq!(lsp_tactic_error_message(None), "");
    assert_eq!(WebLspCodeActionResult::from_actions(Vec::new(), String::new()).status, "0 code action(s)");
}

#[test]
fn flow_errors_have_fixed_messages() {
    assert_eq!(session_store_unavailable().kind(), WebFlowErrorKind::SessionStoreUnavailable);
    assert_eq!(session_store_unavailable().user_message(), "Human session store is unavailable.");
    assert_eq!(session_create_error().user_message(), "Human session id space is exhausted.");
    assert_eq!(start_error(StartFailure::UnknownSession).user_message(), "Unknown Human session.");
    assert_eq!(start_error(StartFailure::IdSpaceExhausted).user_message(), "Human proof state id space is exhausted.");
    let refused = start_error(StartFailure::Refused("theorem not found".to_owned()));
    assert_eq!(refused.kind(), WebFlowErrorKind::HumanProofStart);
    assert_eq!(refused.user_message(), "theorem not found");
    assert_eq!(state_lookup_error("E").user_message(), "Human proof state lookup failed: E.");
    let load = check_fixture_module("Std.Nat.Basic", "Std.Other", false).expect_err("mismatch");
    let error = standard_demo_fixture_error(&load);
    assert_eq!(error.kind(), WebFlowErrorKind::StandardDemoFixture);
    assert_eq!(error.user_message(), "standard demo fixture expected Std.Nat.Basic but loaded Std.Other.");
}
