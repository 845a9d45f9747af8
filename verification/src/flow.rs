//! The decisions of the proof flow: the checks on browser input, the ids
//! that address a proof state, and how what the Human API answers becomes
//! the workspace, the verify panel, the LSP panels and the flow errors.
//!
//! The Human API itself is called around these functions; what it answers
//! comes in as the plain records below (each text field holds the text
//! that the API's value displays as).
use vstd::prelude::*;

use crate::source_imports::{import_line_names, source_import_names};
use crate::state::{
    bindings_model, code_action_model, completion_item_model, hover_message_model, hover_model,
    imports_model, messages_model, pending_verify_model, verify_model, workspace_model,
    CodeActionsModel, CompletionsModel, DemoMode, GoalModel, HoverModel, LspPanelInput,
    LspPanelsModel, VerifyModel, WebBinding, WebFlowError, WebFlowErrorKind, WebGoal,
    WebImportSummary, WebLspCodeAction, WebLspCodeActionResult, WebLspCompletionItem,
    WebLspCompletionResult, WebLspHoverResult, WebLspPanels, WebMessage, WebVerify, WebWorkspace,
    WorkspaceModel, DEFAULT_LSP_HOVER_NAME, MAX_SOURCE_BYTES, MAX_TACTIC_BYTES,
};
use crate::std_demo::{
    is_standard_demo_import, is_standard_demo_import_name, StdDemoLoadError, STD_LOGIC_EQ,
    STD_NAT_BASIC,
};
use crate::text::{
    chars_of, concat2, concat3, decimal, decimal_string, join, join_strings, lex_lt, owned,
    parse_u64, parse_u64_spec, push_str, sorted_unique, string_from_chars, string_views, trim, trim_chars,
};

verus! {

// ---------------------------------------------------------------------
// Input checks
// ---------------------------------------------------------------------

/// The modules a source declares imported: those of its import lines and
/// those that the Human parser found (`parsed`).
pub open spec fn declared_imports(source: Seq<char>, parsed: Seq<Seq<char>>) -> Set<Seq<char>> {
    import_line_names(source).to_set().union(parsed.to_set())
}

/// `x` is the first declared import, in sorted order, that the
/// standard-library demo does not allow.
pub open spec fn first_unsupported_import(imports: Set<Seq<char>>, x: Seq<char>) -> bool {
    &&& imports.contains(x)
    &&& !is_standard_demo_import(x)
    &&& forall|y: Seq<char>|
        imports.contains(y) && !is_standard_demo_import(y) ==> y == x || lex_lt(x, y)
}

/// How an import name is shown in a message.
pub open spec fn shown_import(x: Seq<char>) -> Seq<char> {
    if x.len() == 0 {
        "<empty>"@
    } else {
        x
    }
}

/// The message for an import that the standard-library demo does not allow.
pub open spec fn unsupported_import_message(x: Seq<char>) -> Seq<char> {
    "The standard-library demo only allows fixed imports: "@ + STD_NAT_BASIC@ + ", "@ + STD_LOGIC_EQ@
        + ". Unsupported import: "@ + shown_import(x) + "."@
}

/// The checks on a proof source before a session is created: at most
/// `MAX_SOURCE_BYTES` bytes; no imports in the import-free demo; only the
/// fixed imports in the standard-library demo. `parsed_imports` are the
/// modules that the Human parser found imported in `source`.
pub fn validate_source_input(source: &str, demo: DemoMode, parsed_imports: &Vec<String>) -> (r:
    Result<(), WebFlowError>)
    ensures
        source.len() > MAX_SOURCE_BYTES ==> (r matches Err(e) && e.kind_view()
            == WebFlowErrorKind::SourceTooLarge && e.message_view()
            == "Source input must be at most 131072 bytes."@),
        source.len() <= MAX_SOURCE_BYTES && demo == DemoMode::ImportFree ==> {
            &&& r is Ok <==> (forall|x: Seq<char>|
                !declared_imports(source@, string_views(parsed_imports@)).contains(x))
            &&& r matches Err(e) ==> e.kind_view() == WebFlowErrorKind::UnsupportedImport
                && e.message_view() == "Imports are disabled in the import-free demo."@
        },
        source.len() <= MAX_SOURCE_BYTES && demo == DemoMode::Standard ==> {
            &&& r is Ok <==> (forall|x: Seq<char>|
                declared_imports(source@, string_views(parsed_imports@)).contains(x)
                    ==> is_standard_demo_import(x))
            &&& r matches Err(e) ==> e.kind_view() == WebFlowErrorKind::UnsupportedImport
                && exists|x: Seq<char>|
                first_unsupported_import(
                    declared_imports(source@, string_views(parsed_imports@)),
                    x,
                ) && e.message_view() == unsupported_import_message(x)
        },
{
    if source.len() > MAX_SOURCE_BYTES {
        return Err(
            WebFlowError::new(
                WebFlowErrorKind::SourceTooLarge,
                owned("Source input must be at most 131072 bytes."),
            ),
        );
    }
    let imports = source_import_names(source, parsed_imports);
    let ghost names = string_views(imports@);
    let ghost declared = declared_imports(source@, string_views(parsed_imports@));
    assert(names.to_set() == declared);
    match demo {
        DemoMode::ImportFree => {
            if imports.len() > 0 {
                assert(declared.contains(names[0])) by {
                    assert(names.to_set().contains(names[0]));
                }
                return Err(
                    WebFlowError::new(
                        WebFlowErrorKind::UnsupportedImport,
                        owned("Imports are disabled in the import-free demo."),
                    ),
                );
            }
            assert forall|x: Seq<char>| !declared.contains(x) by {
                if declared.contains(x) {
                    assert(names.contains(x));
                }
            }
            Ok(())
        },
        DemoMode::Standard => {
            let mut i: usize = 0;
            while i < imports.len()
                invariant
                    i <= imports.len(),
                    names == string_views(imports@),
                    names.to_set() == declared,
                    sorted_unique(names),
                    source.len() <= MAX_SOURCE_BYTES,
                    demo == DemoMode::Standard,
                    declared == declared_imports(source@, string_views(parsed_imports@)),
                    forall|k: int| 0 <= k < i ==> is_standard_demo_import(#[trigger] names[k]),
                decreases imports.len() - i,
            {
                if !is_standard_demo_import_name(imports[i].as_str()) {
                    let ghost x = names[i as int];
                    let name = imports[i].as_str();
                    let shown = if name.is_empty() {
                        "<empty>"
                    } else {
                        name
                    };
                    let mut message = concat3(
                        "The standard-library demo only allows fixed imports: ",
                        STD_NAT_BASIC,
                        ", ",
                    );
                    push_str(&mut message, STD_LOGIC_EQ);
                    push_str(&mut message, ". Unsupported import: ");
                    push_str(&mut message, shown);
                    push_str(&mut message, ".");
                    proof {
                        assert(names[i as int] == x);
                        assert(names.contains(x));
                        assert(declared.contains(x));
                        assert forall|y: Seq<char>|
                            declared.contains(y) && !is_standard_demo_import(y) implies y == x
                            || lex_lt(x, y) by {
                            assert(names.to_set().contains(y));
                            assert(names.contains(y));
                            let k = choose|k: int| 0 <= k < names.len() && names[k] == y;
                            if k > i {
                                assert(lex_lt(names[i as int], names[k]));
                            }
                        }
                        assert(first_unsupported_import(declared, x));
                        assert(shown@ == shown_import(x));
                        assert(message@ == unsupported_import_message(x));
                        assert(!(forall|z: Seq<char>|
                            declared.contains(z) ==> is_standard_demo_import(z)));
                    }
                    return Err(WebFlowError::new(WebFlowErrorKind::UnsupportedImport, message));
                }
                i += 1;
            }
            assert forall|x: Seq<char>| declared.contains(x) implies is_standard_demo_import(x) by {
                assert(names.contains(x));
            }
            Ok(())
        },
    }
}

/// The check on a tactic before it runs: at most `MAX_TACTIC_BYTES` bytes.
pub fn validate_tactic_input(tactic: &str) -> (r: Result<(), WebFlowError>)
    ensures
        r is Ok <==> tactic.len() <= MAX_TACTIC_BYTES,
        r matches Err(e) ==> e.kind_view() == WebFlowErrorKind::TacticTooLarge && e.message_view()
            == "Tactic input must be at most 4096 bytes."@,
{
    if tactic.len() > MAX_TACTIC_BYTES {
        return Err(
            WebFlowError::new(
                WebFlowErrorKind::TacticTooLarge,
                owned("Tactic input must be at most 4096 bytes."),
            ),
        );
    }
    Ok(())
}

/// The check on a name given for `field`: `is_canonical` tells whether the
/// name, read as a dotted NPA name, is canonical.
pub fn check_canonical_name(field: &str, is_canonical: bool) -> (r: Result<(), WebFlowError>)
    ensures
        r is Ok <==> is_canonical,
        r matches Err(e) ==> e.kind_view() == WebFlowErrorKind::InvalidName && e.message_view()
            == field@ + " must be a canonical dotted NPA name."@,
{
    if is_canonical {
        Ok(())
    } else {
        Err(
            WebFlowError::new(
                WebFlowErrorKind::InvalidName,
                concat2(field, " must be a canonical dotted NPA name."),
            ),
        )
    }
}

/// A document version from the browser: an unsigned integer greater than
/// zero.
pub fn parse_document_version(value: &str) -> (r: Result<u64, WebFlowError>)
    ensures
        r matches Ok(n) ==> parse_u64_spec(value@) == Some(n) && n > 0,
        r is Ok <==> (parse_u64_spec(value@) matches Some(n) && n > 0),
        r matches Err(e) ==> e.kind_view() == WebFlowErrorKind::InvalidDocumentVersion && (
        e.message_view() == if parse_u64_spec(value@) is None {
            "Document version must be an unsigned integer."@
        } else {
            "Document version must be greater than zero."@
        }),
{
    match parse_u64(value) {
        None => Err(
            WebFlowError::new(
                WebFlowErrorKind::InvalidDocumentVersion,
                owned("Document version must be an unsigned integer."),
            ),
        ),
        Some(n) => {
            if n == 0 {
                Err(
                    WebFlowError::new(
                        WebFlowErrorKind::InvalidDocumentVersion,
                        owned("Document version must be greater than zero."),
                    ),
                )
            } else {
                Ok(n)
            }
        },
    }
}

/// The ids that address a document of a session.
#[derive(Clone, Debug, PartialEq, Eq)]
pub struct StateHeader {
    pub session_id: String,
    pub document_id: String,
    pub document_version: u64,
}

/// The header for the ids the browser sent back.
pub fn state_header_from_wire(session_id: &str, document_id: &str, document_version: &str) -> (r:
    Result<StateHeader, WebFlowError>)
    ensures
        r is Ok <==> (parse_u64_spec(document_version@) matches Some(n) && n > 0),
        r matches Ok(h) ==> h.session_id@ == session_id@ && h.document_id@ == document_id@
            && Some(h.document_version) == parse_u64_spec(document_version@),
        r matches Err(e) ==> e.kind_view() == WebFlowErrorKind::InvalidDocumentVersion,
{
    let version = parse_document_version(document_version)?;
    Ok(
        StateHeader {
            session_id: owned(session_id),
            document_id: owned(document_id),
            document_version: version,
        },
    )
}

// ---------------------------------------------------------------------
// Flow errors for what the Human API answered
// ---------------------------------------------------------------------

/// The error for a session store that cannot be used.
pub fn session_store_unavailable() -> (e: WebFlowError)
    ensures
        e.kind_view() == WebFlowErrorKind::SessionStoreUnavailable,
        e.message_view() == "Human session store is unavailable."@,
{
    WebFlowError::new(
        WebFlowErrorKind::SessionStoreUnavailable,
        owned("Human session store is unavailable."),
    )
}

/// The error for a session that could not be created (the session id
/// space is exhausted).
pub fn session_create_error() -> (e: WebFlowError)
    ensures
        e.kind_view() == WebFlowErrorKind::HumanSessionCreate,
        e.message_view() == "Human session id space is exhausted."@,
{
    WebFlowError::new(
        WebFlowErrorKind::HumanSessionCreate,
        owned("Human session id space is exhausted."),
    )
}

/// Why a proof could not be started.
#[derive(Clone, Debug, PartialEq, Eq)]
pub enum StartFailure {
    UnknownSession,
    IdSpaceExhausted,
    /// The proof start was refused; the diagnostic's message.
    Refused(String),
}

/// The error for a proof that could not be started.
pub fn start_error(failure: StartFailure) -> (e: WebFlowError)
    ensures
        e.kind_view() == WebFlowErrorKind::HumanProofStart,
        e.message_view() == match failure {
            StartFailure::UnknownSession => "Unknown Human session."@,
            StartFailure::IdSpaceExhausted => "Human proof state id space is exhausted."@,
            StartFailure::Refused(message) => message@,
        },
{
    let message = match failure {
        StartFailure::UnknownSession => owned("Unknown Human session."),
        StartFailure::IdSpaceExhausted => owned("Human proof state id space is exhausted."),
        StartFailure::Refused(message) => message,
    };
    WebFlowError::new(WebFlowErrorKind::HumanProofStart, message)
}

/// The error for a failed proof state lookup; `error` is the lookup error
/// as displayed for debugging.
pub fn state_lookup_error(error: &str) -> (e: WebFlowError)
    ensures
        e.kind_view() == WebFlowErrorKind::HumanStateLookup,
        e.message_view() == "Human proof state lookup failed: "@ + error@ + "."@,
{
    WebFlowError::new(
        WebFlowErrorKind::HumanStateLookup,
        concat3("Human proof state lookup failed: ", error, "."),
    )
}

/// The error for standard-library demo fixtures that could not be loaded.
pub fn standard_demo_fixture_error(error: &StdDemoLoadError) -> (e: WebFlowError)
    ensures
        e.kind_view() == WebFlowErrorKind::StandardDemoFixture,
        e.message_view() == error.message_view(),
{
    WebFlowError::new(WebFlowErrorKind::StandardDemoFixture, owned(error.user_message()))
}

// ---------------------------------------------------------------------
// Proof states and workspaces
// ---------------------------------------------------------------------

/// How severe a Human diagnostic is.
#[derive(Clone, Copy, Debug, PartialEq, Eq, Structural)]
pub enum DiagnosticSeverity {
    Error,
    Warning,
}

/// A Human diagnostic: its severity and message.
#[derive(Clone, Debug, PartialEq, Eq)]
pub struct DiagnosticRecord {
    pub severity: DiagnosticSeverity,
    pub message: String,
}

/// A goal of a proof state: its id, its context and its target, each as
/// displayed.
#[derive(Clone, Debug, PartialEq, Eq)]
pub struct GoalRecord {
    pub goal_id: String,
    pub context: Vec<WebBinding>,
    pub target: String,
}

/// A proof state: its id, the goal it selects if any, its goals and its
/// messages.
#[derive(Clone, Debug, PartialEq, Eq)]
pub struct ProofStateRecord {
    pub state_id: String,
    pub selected_goal: Option<String>,
    pub goals: Vec<GoalRecord>,
    pub messages: Vec<DiagnosticRecord>,
}

/// The severity and text of the message a diagnostic becomes.
pub open spec fn diagnostic_model(d: DiagnosticRecord) -> (Seq<char>, Seq<char>) {
    (
        match d.severity {
            DiagnosticSeverity::Error => "error"@,
            DiagnosticSeverity::Warning => "warning"@,
        },
        d.message@,
    )
}

/// The messages that diagnostics become.
pub open spec fn diagnostics_model(ds: Seq<DiagnosticRecord>) -> Seq<(Seq<char>, Seq<char>)> {
    ds.map_values(|d: DiagnosticRecord| diagnostic_model(d))
}

/// The index of the first goal with the given id, if any.
pub open spec fn first_goal_with_id(goals: Seq<GoalRecord>, id: Seq<char>) -> Option<int>
    decreases goals.len(),
{
    if goals.len() == 0 {
        None
    } else {
        match first_goal_with_id(goals.drop_last(), id) {
            Some(k) => Some(k),
            None => if goals.last().goal_id@ == id {
                Some(goals.len() - 1)
            } else {
                None
            },
        }
    }
}

/// The goal a state shows: the first goal with the selected id when a goal
/// is selected, else the first goal.
pub open spec fn selected_goal_index(state: ProofStateRecord) -> Option<int> {
    match state.selected_goal {
        Some(id) => first_goal_with_id(state.goals@, id@),
        None => if state.goals@.len() > 0 {
            Some(0)
        } else {
            None
        },
    }
}

/// The goal model of a state's goal.
pub open spec fn goal_record_model(g: GoalRecord) -> GoalModel {
    GoalModel {
        has_goal: true,
        label: g.goal_id@,
        context: bindings_model(g.context@),
        target: g.target@,
    }
}

/// The model of an absent goal.
pub open spec fn no_goal_model() -> GoalModel {
    GoalModel { has_goal: false, label: Seq::empty(), context: Seq::empty(), target: Seq::empty() }
}

/// The LSP panels of a fresh workspace.
pub open spec fn pending_panels_model(
    session_id: Seq<char>,
    document_id: Seq<char>,
    document_version: Seq<char>,
    state_id: Seq<char>,
    goal_id: Seq<char>,
) -> LspPanelsModel {
    LspPanelsModel {
        session_id,
        document_id,
        document_version,
        state_id,
        goal_id,
        hover_name: DEFAULT_LSP_HOVER_NAME@,
        hover: hover_message_model("not requested"@),
        completions: CompletionsModel {
            status: "not requested"@,
            error: Seq::empty(),
            items: Seq::empty(),
        },
        code_actions: CodeActionsModel {
            status: "not requested"@,
            error: Seq::empty(),
            actions: Seq::empty(),
        },
    }
}

/// The workspace that a proof state becomes.
pub open spec fn state_workspace_model(
    header: StateHeader,
    state: ProofStateRecord,
    tactic_input: Seq<char>,
    extra: Seq<WebMessage>,
) -> WorkspaceModel {
    let sel = selected_goal_index(state);
    let goal_id = match sel {
        Some(k) => state.goals@[k].goal_id@,
        None => Seq::<char>::empty(),
    };
    let version = decimal(header.document_version as nat);
    WorkspaceModel {
        session_id: header.session_id@,
        document_id: header.document_id@,
        document_version: version,
        state_id: state.state_id@,
        goal_id,
        tactic_input,
        goal: match sel {
            Some(k) => goal_record_model(state.goals@[k]),
            None => no_goal_model(),
        },
        messages: diagnostics_model(state.messages@) + messages_model(extra),
        verify: pending_verify_model(),
        lsp: pending_panels_model(
            header.session_id@,
            header.document_id@,
            version,
            state.state_id@,
            goal_id,
        ),
    }
}

/// The first goal with an id is the first one in order: it has the id, no
/// goal before it has it, and there is one exactly when some goal has it.
pub proof fn lemma_first_goal_with_id(goals: Seq<GoalRecord>, id: Seq<char>)
    ensures
        first_goal_with_id(goals, id) matches Some(k) ==> 0 <= k < goals.len()
            && goals[k].goal_id@ == id && forall|j: int|
            0 <= j < k ==> (#[trigger] goals[j]).goal_id@ != id,
        first_goal_with_id(goals, id) is None <==> forall|j: int|
            0 <= j < goals.len() ==> (#[trigger] goals[j]).goal_id@ != id,
    decreases goals.len(),
{
    if goals.len() > 0 {
        let init = goals.drop_last();
        lemma_first_goal_with_id(init, id);
        // the goals before the last are those of `init`
        assert forall|j: int| 0 <= j < init.len() implies init[j] == goals[j] by {}
    }
}

/// A workspace addresses one proof state throughout: its LSP panels carry
/// its ids and goal, the goal it shows is labelled with its goal id (and
/// there is no goal id when it shows no goal), and its document version,
/// sent back by the browser, reads as the header's version.
pub proof fn lemma_workspace_addresses_its_state(
    header: StateHeader,
    state: ProofStateRecord,
    tactic_input: Seq<char>,
    extra: Seq<WebMessage>,
)
    ensures
        ({
            let m = state_workspace_model(header, state, tactic_input, extra);
            &&& m.lsp.session_id == m.session_id
            &&& m.lsp.document_id == m.document_id
            &&& m.lsp.document_version == m.document_version
            &&& m.lsp.state_id == m.state_id
            &&& m.lsp.goal_id == m.goal_id
            &&& m.goal.has_goal ==> m.goal.label == m.goal_id
            &&& !m.goal.has_goal ==> m.goal_id.len() == 0
            &&& parse_u64_spec(m.document_version) == Some(header.document_version)
        }),
{
    crate::text::lemma_decimal_parse_round_trip(header.document_version);
}

/// A prefix's first match is the whole sequence's first match.
proof fn lemma_first_goal_prefix(goals: Seq<GoalRecord>, id: Seq<char>, j: int)
    requires
        0 <= j <= goals.len(),
        first_goal_with_id(goals.take(j), id) is Some,
    ensures
        first_goal_with_id(goals, id) == first_goal_with_id(goals.take(j), id),
    decreases goals.len() - j,
{
    if j < goals.len() {
        assert(goals.take(j + 1).drop_last() =~= goals.take(j));
        lemma_first_goal_prefix(goals, id, j + 1);
    } else {
        assert(goals.take(j) =~= goals);
    }
}

/// The index of the goal a state shows, if any.
pub fn selected_goal(state: &ProofStateRecord) -> (r: Option<usize>)
    ensures
        match r {
            Some(k) => selected_goal_index(*state) == Some(k as int) && k < state.goals@.len(),
            None => selected_goal_index(*state) is None,
        },
{
    match &state.selected_goal {
        Some(id) => {
            let want = chars_of(id.as_str());
            let mut i: usize = 0;
            assert(state.goals@.take(0) =~= Seq::<GoalRecord>::empty());
            while i < state.goals.len()
                invariant
                    i <= state.goals.len(),
                    want@ == id@,
                    state.selected_goal == Some(*id),
                    first_goal_with_id(state.goals@.take(i as int), id@) is None,
                decreases state.goals.len() - i,
            {
                let have = chars_of(state.goals[i].goal_id.as_str());
                assert(state.goals@.take(i + 1).drop_last() =~= state.goals@.take(i as int));
                if crate::text::chars_eq(&have, &want) {
                    proof {
                        assert(state.goals@.take(i + 1).last() == state.goals@[i as int]);
                        assert(first_goal_with_id(state.goals@.take(i + 1), id@) == Some(i as int));
                        lemma_first_goal_prefix(state.goals@, id@, i + 1);
                    }
                    return Some(i);
                }
                i += 1;
            }
            assert(state.goals@.take(i as int) =~= state.goals@);
            None
        },
        None => {
            if state.goals.len() > 0 {
                Some(0)
            } else {
                None
            }
        },
    }
}

/// The goal that a state's goal becomes.
pub fn goal_from_record(goal: &GoalRecord) -> (g: WebGoal)
    ensures
        crate::state::goal_model(g) == goal_record_model(*goal),
        ({
            &&& (g.has_goal)
            &&& (g.label@ == goal.goal_id@)
            &&& (g.target@ == goal.target@)
            &&& (g.context@.len() == goal.context@.len())
            &&& (forall|i: int|
                0 <= i < goal.context@.len() ==> (#[trigger] g.context@[i]).name@ == goal.context@[i].name@
                    && g.context@[i].ty@ == goal.context@[i].ty@)
        }),
{
    let mut context: Vec<WebBinding> = Vec::new();
    let mut i: usize = 0;
    while i < goal.context.len()
        invariant
            i <= goal.context.len(),
            bindings_model(context@) == bindings_model(goal.context@).take(i as int),
        decreases goal.context.len() - i,
    {
        let b = &goal.context[i];
        let copy = WebBinding { name: b.name.clone(), ty: b.ty.clone() };
        let ghost before = context@;
        context.push(copy);
        assert(bindings_model(context@) =~= bindings_model(before).push((copy.name@, copy.ty@)));
        assert(bindings_model(goal.context@).take(i + 1) =~= bindings_model(goal.context@).take(
            i as int,
        ).push((b.name@, b.ty@)));
        i += 1;
    }
    assert(bindings_model(goal.context@).take(i as int) =~= bindings_model(goal.context@));
    let g = WebGoal {
        has_goal: true,
        label: goal.goal_id.clone(),
        context,
        target: goal.target.clone(),
    };
    proof {
        law_goal_shows_every_hypothesis(g, *goal);
    }
    g
}

/// A shown goal is labelled with the goal's id and shows its target and
/// one binding per hypothesis of its context, in order, each with the
/// hypothesis's name and type.
pub proof fn law_goal_shows_every_hypothesis(g: WebGoal, goal: GoalRecord)
    requires
        crate::state::goal_model(g) == goal_record_model(goal),
    ensures
        ({
            &&& (g.has_goal)
            &&& (g.label@ == goal.goal_id@)
            &&& (g.target@ == goal.target@)
            &&& (g.context@.len() == goal.context@.len())
            &&& (forall|i: int|
                0 <= i < goal.context@.len() ==> (#[trigger] g.context@[i]).name@ == goal.context@[i].name@
                    && g.context@[i].ty@ == goal.context@[i].ty@)
        }),
{
    let m = crate::state::goal_model(g);
    assert(m.context.len() == g.context@.len());
    assert(bindings_model(goal.context@).len() == goal.context@.len());
    assert forall|i: int| 0 <= i < goal.context@.len() implies (#[trigger] g.context@[i]).name@
        == goal.context@[i].name@ && g.context@[i].ty@ == goal.context@[i].ty@ by {
        assert(m.context[i] == bindings_model(goal.context@)[i]);
    }
}

/// The goal a state shows is the one it selects: with no goal selected,
/// the first goal (none when there are none); with a goal id selected, the
/// first goal with that id, and none when no goal has it.
pub proof fn law_shown_goal_is_the_selected_one(state: ProofStateRecord)
    ensures
        selected_goal_index(state) matches Some(k) ==> 0 <= k < state.goals@.len(),
        state.selected_goal is None ==> (selected_goal_index(state) is Some
            <==> state.goals@.len() > 0),
        state.selected_goal is None && state.goals@.len() > 0 ==> selected_goal_index(state)
            == Some(0int),
        state.selected_goal matches Some(id) ==> (selected_goal_index(state) matches Some(k)
            ==> state.goals@[k].goal_id@ == id@ && forall|j: int|
            0 <= j < k ==> (#[trigger] state.goals@[j]).goal_id@ != id@),
        state.selected_goal matches Some(id) ==> (selected_goal_index(state) is None
            <==> forall|j: int|
            0 <= j < state.goals@.len() ==> (#[trigger] state.goals@[j]).goal_id@ != id@),
{
    if let Some(id) = state.selected_goal {
        lemma_first_goal_with_id(state.goals@, id@);
    }
}

/// The messages that diagnostics become: errors as `error`, warnings as
/// `warning`, each with its text.
pub fn diagnostic_messages(diagnostics: &Vec<DiagnosticRecord>) -> (ms: Vec<WebMessage>)
    ensures
        messages_model(ms@) == diagnostics_model(diagnostics@),
{
    let mut ms: Vec<WebMessage> = Vec::new();
    let mut i: usize = 0;
    while i < diagnostics.len()
        invariant
            i <= diagnostics.len(),
            messages_model(ms@) == diagnostics_model(diagnostics@).take(i as int),
        decreases diagnostics.len() - i,
    {
        let d = &diagnostics[i];
        let severity = match d.severity {
            DiagnosticSeverity::Error => owned("error"),
            DiagnosticSeverity::Warning => owned("warning"),
        };
        let m = WebMessage { severity, text: d.message.clone() };
        let ghost before = ms@;
        ms.push(m);
        assert(messages_model(ms@) =~= messages_model(before).push(
            crate::state::message_model(m),
        ));
        assert(diagnostics_model(diagnostics@).take(i + 1) =~= diagnostics_model(diagnostics@).take(
            i as int,
        ).push(diagnostic_model(diagnostics@[i as int])));
        i += 1;
    }
    assert(diagnostics_model(diagnostics@).take(i as int) =~= diagnostics_model(diagnostics@));
    ms
}

/// Appends the messages of `extra` to `ms`.
fn append_messages(ms: &mut Vec<WebMessage>, extra: Vec<WebMessage>)
    ensures
        messages_model(final(ms)@) == messages_model(old(ms)@) + messages_model(extra@),
{
    let ghost start = ms@;
    let mut i: usize = 0;
    while i < extra.len()
        invariant
            i <= extra.len(),
            messages_model(ms@) == messages_model(start) + messages_model(extra@).take(i as int),
        decreases extra.len() - i,
    {
        let m = WebMessage { severity: extra[i].severity.clone(), text: extra[i].text.clone() };
        let ghost before = ms@;
        ms.push(m);
        assert(messages_model(ms@) =~= messages_model(before).push(
            crate::state::message_model(m),
        ));
        assert(messages_model(extra@).take(i + 1) =~= messages_model(extra@).take(i as int).push(
            crate::state::message_model(extra@[i as int]),
        ));
        i += 1;
    }
    assert(messages_model(extra@).take(i as int) =~= messages_model(extra@));
}

/// The workspace that a proof state becomes: the header's ids with the
/// version in decimal, the state's id, the goal it shows (none when it
/// shows none), its diagnostics followed by `extra_messages`, the verify
/// panel not yet run, and LSP panels addressed to the same state and goal.
pub fn workspace_from_state(
    header: &StateHeader,
    state: &ProofStateRecord,
    tactic_input: String,
    extra_messages: Vec<WebMessage>,
) -> (w: WebWorkspace)
    ensures
        workspace_model(w) == state_workspace_model(
            *header,
            *state,
            tactic_input@,
            extra_messages@,
        ),
        w.session_id@ == header.session_id@,
        w.document_id@ == header.document_id@,
        w.document_version@ == decimal(header.document_version as nat),
        w.state_id@ == state.state_id@,
        w.tactic_input@ == tactic_input@,
        selected_goal_index(*state) matches Some(k) ==> w.goal_id@ == state.goals@[k].goal_id@
            && ({
                &&& (w.goal.has_goal)
                &&& (w.goal.label@ == state.goals@[k].goal_id@)
                &&& (w.goal.target@ == state.goals@[k].target@)
                &&& (w.goal.context@.len() == state.goals@[k].context@.len())
                &&& (forall|i: int|
                    0 <= i < state.goals@[k].context@.len() ==> (#[trigger] w.goal.context@[i]).name@ == state.goals@[k].context@[i].name@
                        && w.goal.context@[i].ty@ == state.goals@[k].context@[i].ty@)
            }),
        selected_goal_index(*state) is None ==> !w.goal.has_goal && w.goal_id@.len() == 0
            && w.goal.context@.len() == 0,
        w.messages@.len() == state.messages@.len() + extra_messages@.len(),
        forall|i: int|
            0 <= i < state.messages@.len() ==> (#[trigger] w.messages@[i]).text@
                == state.messages@[i].message@ && w.messages@[i].severity@ == match state.messages@[i].severity {
                DiagnosticSeverity::Error => "error"@,
                DiagnosticSeverity::Warning => "warning"@,
            },
        forall|j: int|
            0 <= j < extra_messages@.len() ==> (#[trigger] w.messages@[state.messages@.len() + j]).text@
                == extra_messages@[j].text@ && w.messages@[state.messages@.len() + j].severity@
                == extra_messages@[j].severity@,
{
    let sel = selected_goal(state);
    let (goal_id, goal) = match sel {
        Some(k) => (state.goals[k].goal_id.clone(), goal_from_record(&state.goals[k])),
        None => (String::new(), WebGoal::empty()),
    };
    let mut messages = diagnostic_messages(&state.messages);
    append_messages(&mut messages, extra_messages);
    let session_id = header.session_id.clone();
    let document_id = header.document_id.clone();
    let document_version = decimal_string(header.document_version);
    let state_id = state.state_id.clone();
    let lsp = WebLspPanels::pending(
        session_id.clone(),
        document_id.clone(),
        document_version.clone(),
        state_id.clone(),
        goal_id.clone(),
    );
    let w = WebWorkspace {
        session_id,
        document_id,
        document_version,
        state_id,
        goal_id,
        tactic_input,
        goal,
        messages,
        verify: WebVerify::pending(),
        lsp,
    };
    proof {
        law_workspace_shows_its_state(*header, *state, tactic_input@, extra_messages@, w);
    }
    w
}

/// A workspace shows the proof state it was made from: the header's ids
/// and version, the state's id, the goal it selects with every hypothesis
/// in order (no goal, and no goal id, where it selects none), and one
/// message per diagnostic, in order, followed by the extra messages.
pub proof fn law_workspace_shows_its_state(
    header: StateHeader,
    state: ProofStateRecord,
    tactic_input: Seq<char>,
    extra: Seq<WebMessage>,
    w: WebWorkspace,
)
    requires
        workspace_model(w) == state_workspace_model(header, state, tactic_input, extra),
    ensures
        w.session_id@ == header.session_id@,
        w.document_id@ == header.document_id@,
        w.document_version@ == decimal(header.document_version as nat),
        w.state_id@ == state.state_id@,
        w.tactic_input@ == tactic_input,
        selected_goal_index(state) matches Some(k) ==> w.goal_id@ == state.goals@[k].goal_id@
            && ({
                &&& (w.goal.has_goal)
                &&& (w.goal.label@ == state.goals@[k].goal_id@)
                &&& (w.goal.target@ == state.goals@[k].target@)
                &&& (w.goal.context@.len() == state.goals@[k].context@.len())
                &&& (forall|i: int|
                    0 <= i < state.goals@[k].context@.len() ==> (#[trigger] w.goal.context@[i]).name@ == state.goals@[k].context@[i].name@
                        && w.goal.context@[i].ty@ == state.goals@[k].context@[i].ty@)
            }),
        selected_goal_index(state) is None ==> !w.goal.has_goal && w.goal_id@.len() == 0
            && w.goal.context@.len() == 0,
        w.messages@.len() == state.messages@.len() + extra.len(),
        forall|i: int|
            0 <= i < state.messages@.len() ==> (#[trigger] w.messages@[i]).text@
                == state.messages@[i].message@ && w.messages@[i].severity@ == match state.messages@[i].severity {
                DiagnosticSeverity::Error => "error"@,
                DiagnosticSeverity::Warning => "warning"@,
            },
        forall|j: int|
            0 <= j < extra.len() ==> (#[trigger] w.messages@[state.messages@.len() + j]).text@
                == extra[j].text@ && w.messages@[state.messages@.len() + j].severity@
                == extra[j].severity@,
{
    let m = workspace_model(w);
    let n = state.messages@.len();
    assert(m.messages.len() == w.messages@.len());
    assert(diagnostics_model(state.messages@).len() == n);
    assert(messages_model(extra).len() == extra.len());
    assert forall|i: int| 0 <= i < n implies (#[trigger] w.messages@[i]).text@
        == state.messages@[i].message@ && w.messages@[i].severity@ == match state.messages@[i].severity {
        DiagnosticSeverity::Error => "error"@,
        DiagnosticSeverity::Warning => "warning"@,
    } by {
        assert(m.messages[i] == diagnostics_model(state.messages@)[i]);
    }
    assert forall|j: int| 0 <= j < extra.len() implies (#[trigger] w.messages@[n + j]).text@
        == extra[j].text@ && w.messages@[n + j].severity@ == extra[j].severity@ by {
        assert(m.messages[n + j] == messages_model(extra)[j]);
    }
    if let Some(k) = selected_goal_index(state) {
        law_goal_shows_every_hypothesis(w.goal, state.goals@[k]);
    } else {
        assert(bindings_model(w.goal.context@).len() == w.goal.context@.len());
    }
}

/// The error a tactic run reported: its kind and message.
#[derive(Clone, Debug, PartialEq, Eq)]
pub struct TacticErrorReport {
    pub kind: String,
    pub message: String,
}

/// The messages after a tactic run: the run's diagnostics, then its status,
/// then its error if it reported one.
pub fn tactic_run_messages(
    diagnostics: &Vec<DiagnosticRecord>,
    status: &str,
    error: Option<TacticErrorReport>,
) -> (ms: Vec<WebMessage>)
    ensures
        messages_model(ms@) == diagnostics_model(diagnostics@) + seq![
            ("info"@, "tactic status: "@ + status@),
        ] + match error {
            Some(e) => seq![("error"@, e.kind@ + ": "@ + e.message@)],
            None => Seq::empty(),
        },
{
    let mut ms = diagnostic_messages(diagnostics);
    let ghost base = messages_model(ms@);
    let info = WebMessage::info(concat2("tactic status: ", status));
    ms.push(info);
    assert(messages_model(ms@) =~= base + seq![("info"@, "tactic status: "@ + status@)]);
    let ghost with_status = messages_model(ms@);
    match error {
        Some(e) => {
            let text = concat3(e.kind.as_str(), ": ", e.message.as_str());
            let m = WebMessage::error(text);
            ms.push(m);
            assert(messages_model(ms@) =~= with_status + seq![
                ("error"@, e.kind@ + ": "@ + e.message@),
            ]);
        },
        None => {
            assert(messages_model(ms@) =~= with_status + Seq::empty());
        },
    }
    ms
}

// ---------------------------------------------------------------------
// Verification
// ---------------------------------------------------------------------

/// What verifying a proof state answered.
#[derive(Clone, Debug, PartialEq, Eq)]
pub enum VerifyOutcome {
    /// The closed proof verified: the status, the theorem's dotted name,
    /// the certificate hashes and the imports, each as displayed.
    Verified {
        status: String,
        theorem_name: String,
        root_decl_certificate_hash: String,
        certificate_hash: String,
        imports: Vec<WebImportSummary>,
    },
    /// Goals are still open: their ids.
    OpenGoals(Vec<String>),
    /// The certificate handoff failed: its message.
    CertificateHandoff(String),
    /// The proof state could not be looked up: the error as displayed for
    /// debugging.
    StateLookupFailed(String),
}

/// The detail line for open goals.
pub open spec fn open_goals_text(ids: Seq<Seq<char>>) -> Seq<char> {
    if ids.len() == 0 {
        "Open goals remain."@
    } else {
        "Open goals: "@ + join(ids, ", "@) + "."@
    }
}

/// The detail line for open goals.
pub fn format_open_goals(open_goals: &Vec<String>) -> (s: String)
    ensures
        s@ == open_goals_text(string_views(open_goals@)),
{
    if open_goals.len() == 0 {
        owned("Open goals remain.")
    } else {
        let ids = join_strings(open_goals, ", ");
        concat3("Open goals: ", ids.as_str(), ".")
    }
}

/// A verify panel that shows only a status and a detail.
pub open spec fn verify_message_model(status: Seq<char>, detail: Seq<char>) -> VerifyModel {
    VerifyModel {
        status,
        detail,
        root_decl_certificate_hash: Seq::empty(),
        certificate_hash: Seq::empty(),
        imports: Seq::empty(),
    }
}

/// The verify panel for a verified, open-goal or handoff outcome.
pub open spec fn verify_panel_model(outcome: VerifyOutcome) -> VerifyModel {
    match outcome {
        VerifyOutcome::Verified {
            status,
            theorem_name,
            root_decl_certificate_hash,
            certificate_hash,
            imports,
        } => VerifyModel {
            status: status@,
            detail: theorem_name@ + " verified."@,
            root_decl_certificate_hash: root_decl_certificate_hash@,
            certificate_hash: certificate_hash@,
            imports: imports_model(imports@),
        },
        VerifyOutcome::OpenGoals(ids) => verify_message_model(
            "open goals"@,
            open_goals_text(string_views(ids@)),
        ),
        VerifyOutcome::CertificateHandoff(message) => verify_message_model("error"@, message@),
        VerifyOutcome::StateLookupFailed(_) => verify_message_model(Seq::empty(), Seq::empty()),
    }
}

/// The panel of a verified theorem drops no import: it holds one summary
/// per import of the outcome, in the same order, each with that import's
/// module, export hash, certificate hash and axiom count, beside the
/// outcome's status and certificate hashes.
pub proof fn law_verified_panel_keeps_every_import(v: WebVerify, outcome: VerifyOutcome)
    requires
        outcome is Verified,
        verify_model(v) == verify_panel_model(outcome),
    ensures
        outcome matches VerifyOutcome::Verified {
            status,
            root_decl_certificate_hash,
            certificate_hash,
            imports,
            ..
        } ==> {
            &&& v.status@ == status@
            &&& v.root_decl_certificate_hash@ == root_decl_certificate_hash@
            &&& v.certificate_hash@ == certificate_hash@
            &&& v.imports@.len() == imports@.len()
            &&& forall|i: int|
                0 <= i < imports@.len() ==> {
                    &&& (#[trigger] v.imports@[i]).module@ == imports@[i].module@
                    &&& v.imports@[i].export_hash@ == imports@[i].export_hash@
                    &&& v.imports@[i].certificate_hash@ == imports@[i].certificate_hash@
                    &&& v.imports@[i].axiom_count == imports@[i].axiom_count
                }
        },
{
    if let VerifyOutcome::Verified { imports, .. } = outcome {
        assert(imports_model(v.imports@).len() == v.imports@.len());
        assert(imports_model(imports@).len() == imports@.len());
        assert forall|i: int| 0 <= i < imports@.len() implies {
            &&& (#[trigger] v.imports@[i]).module@ == imports@[i].module@
            &&& v.imports@[i].export_hash@ == imports@[i].export_hash@
            &&& v.imports@[i].certificate_hash@ == imports@[i].certificate_hash@
            &&& v.imports@[i].axiom_count == imports@[i].axiom_count
        } by {
            assert(imports_model(v.imports@)[i] == imports_model(imports@)[i]);
        }
    }
}

/// The verify panel, or the flow error, for what verification answered:
/// open goals and a failed certificate handoff are shown to the user in
/// the panel; only a failed state lookup is an error.
pub fn verify_result(outcome: VerifyOutcome) -> (r: Result<WebVerify, WebFlowError>)
    ensures
        match outcome {
            VerifyOutcome::StateLookupFailed(error) => r matches Err(e) && e.kind_view()
                == WebFlowErrorKind::HumanStateLookup && e.message_view()
                == "Human proof state lookup failed: "@ + error@ + "."@,
            _ => r matches Ok(v) && verify_model(v) == verify_panel_model(outcome),
        },
        outcome matches VerifyOutcome::Verified {
            status,
            root_decl_certificate_hash,
            certificate_hash,
            imports,
            ..
        } ==> r matches Ok(v) && {
            &&& v.status@ == status@
            &&& v.root_decl_certificate_hash@ == root_decl_certificate_hash@
            &&& v.certificate_hash@ == certificate_hash@
            &&& v.imports@.len() == imports@.len()
            &&& forall|i: int|
                0 <= i < imports@.len() ==> {
                    &&& (#[trigger] v.imports@[i]).module@ == imports@[i].module@
                    &&& v.imports@[i].export_hash@ == imports@[i].export_hash@
                    &&& v.imports@[i].certificate_hash@ == imports@[i].certificate_hash@
                    &&& v.imports@[i].axiom_count == imports@[i].axiom_count
                }
        },
{
    match outcome {
        VerifyOutcome::Verified {
            status,
            theorem_name,
            root_decl_certificate_hash,
            certificate_hash,
            imports,
        } => {
            let detail = concat2(theorem_name.as_str(), " verified.");
            let v = WebVerify {
                status,
                detail,
                root_decl_certificate_hash,
                certificate_hash,
                imports,
            };
            proof {
                law_verified_panel_keeps_every_import(v, outcome);
            }
            Ok(v)
        },
        VerifyOutcome::OpenGoals(ids) => {
            let v = WebVerify {
                status: owned("open goals"),
                detail: format_open_goals(&ids),
                root_decl_certificate_hash: String::new(),
                certificate_hash: String::new(),
                imports: Vec::new(),
            };
            assert(imports_model(v.imports@) =~= Seq::empty());
            Ok(v)
        },
        VerifyOutcome::CertificateHandoff(message) => {
            let v = WebVerify {
                status: owned("error"),
                detail: message,
                root_decl_certificate_hash: String::new(),
                certificate_hash: String::new(),
                imports: Vec::new(),
            };
            assert(imports_model(v.imports@) =~= Seq::empty());
            Ok(v)
        },
        VerifyOutcome::StateLookupFailed(error) => Err(state_lookup_error(error.as_str())),
    }
}

// ---------------------------------------------------------------------
// LSP panels
// ---------------------------------------------------------------------

/// The ids of an LSP request's proof state, or the status to show when
/// there is none: all four ids must be present and the version valid.
pub fn lsp_state_request_parts(input: &LspPanelInput) -> (r: Result<
    (StateHeader, String),
    &'static str,
>)
    ensures
        (input.session_id@.len() == 0 || input.document_id@.len() == 0
            || input.document_version@.len() == 0 || input.state_id@.len() == 0) ==> (r matches Err(
            m,
        ) && m@ == "No active Human state."@),
        !(input.session_id@.len() == 0 || input.document_id@.len() == 0
            || input.document_version@.len() == 0 || input.state_id@.len() == 0) ==> {
            &&& r is Ok <==> (parse_u64_spec(input.document_version@) matches Some(n) && n > 0)
            &&& r matches Err(m) ==> m@ == "Human LSP request ids are invalid."@
            &&& r matches Ok((h, s)) ==> h.session_id@ == input.session_id@ && h.document_id@
                == input.document_id@ && Some(h.document_version) == parse_u64_spec(
                input.document_version@,
            ) && s@ == input.state_id@
        },
{
    if input.session_id.as_str().is_empty() || input.document_id.as_str().is_empty()
        || input.document_version.as_str().is_empty() || input.state_id.as_str().is_empty() {
        return Err("No active Human state.");
    }
    let header = match state_header_from_wire(
        input.session_id.as_str(),
        input.document_id.as_str(),
        input.document_version.as_str(),
    ) {
        Ok(header) => header,
        Err(_) => {
            return Err("Human LSP request ids are invalid.");
        },
    };
    Ok((header, input.state_id.clone()))
}

/// The ids of an LSP request's proof state and goal, or the status to show
/// when there is none.
pub fn lsp_goal_request_parts(input: &LspPanelInput) -> (r: Result<
    (StateHeader, String, String),
    &'static str,
>)
    ensures
        match lsp_state_outcome(*input) {
            Err(m) => r matches Err(n) && n@ == m,
            Ok(_) => if input.goal_id@.len() == 0 {
                r matches Err(n) && n@ == "No selected goal."@
            } else {
                r matches Ok((h, s, g)) && h.session_id@ == input.session_id@ && h.document_id@
                    == input.document_id@ && Some(h.document_version) == parse_u64_spec(
                    input.document_version@,
                ) && s@ == input.state_id@ && g@ == input.goal_id@
            },
        },
{
    let (header, state_id) = lsp_state_request_parts(input)?;
    if input.goal_id.as_str().is_empty() {
        return Err("No selected goal.");
    }
    Ok((header, state_id, input.goal_id.clone()))
}

/// Whether an LSP request addresses a proof state: the status to show
/// when it does not.
pub open spec fn lsp_state_outcome(input: LspPanelInput) -> Result<(), Seq<char>> {
    if input.session_id@.len() == 0 || input.document_id@.len() == 0
        || input.document_version@.len() == 0 || input.state_id@.len() == 0 {
        Err("No active Human state."@)
    } else if !(parse_u64_spec(input.document_version@) matches Some(n) && n > 0) {
        Err("Human LSP request ids are invalid."@)
    } else {
        Ok(())
    }
}

/// The parts of a hover request: the proof state's ids and the hover name
/// without surrounding whitespace, or the panel to show when the request
/// addresses no state or names nothing.
pub fn lsp_hover_request(input: &LspPanelInput) -> (r: Result<
    (StateHeader, String, String),
    WebLspHoverResult,
>)
    ensures
        match lsp_state_outcome(*input) {
            Err(m) => r matches Err(h) && hover_model(h) == hover_message_model(m),
            Ok(_) => if trim(input.hover_name@).len() == 0 {
                r matches Err(h) && hover_model(h) == hover_message_model(
                    "Enter a theorem name for hover."@,
                )
            } else {
                r matches Ok((h, s, name)) && h.session_id@ == input.session_id@ && h.document_id@
                    == input.document_id@ && Some(h.document_version) == parse_u64_spec(
                    input.document_version@,
                ) && s@ == input.state_id@ && name@ == trim(input.hover_name@)
            },
        },
{
    let (header, state_id) = match lsp_state_request_parts(input) {
        Ok(parts) => parts,
        Err(message) => {
            return Err(WebLspHoverResult::message(message));
        },
    };
    let name = trim_chars(&chars_of(input.hover_name.as_str()));
    if name.len() == 0 {
        return Err(WebLspHoverResult::message("Enter a theorem name for hover."));
    }
    Ok((header, state_id, string_from_chars(&name)))
}

/// The text for a tactic error reported to an LSP panel: its kind and
/// message, or nothing.
pub fn lsp_tactic_error_message(error: Option<TacticErrorReport>) -> (s: String)
    ensures
        s@ == match error {
            Some(e) => e.kind@ + ": "@ + e.message@,
            None => Seq::<char>::empty(),
        },
{
    match error {
        Some(e) => concat3(e.kind.as_str(), ": ", e.message.as_str()),
        None => String::new(),
    }
}

/// A command that an LSP item can run: its title and command id.
#[derive(Clone, Debug, PartialEq, Eq)]
pub struct CommandLink {
    pub title: String,
    pub command: String,
}

/// How a command is shown: its title, then its id in parentheses.
pub open spec fn command_text(c: Option<CommandLink>) -> Seq<char> {
    match c {
        Some(c) => c.title@ + " ("@ + c.command@ + ")"@,
        None => Seq::empty(),
    }
}

/// An optional text, empty when absent.
pub open spec fn text_or_empty(t: Option<String>) -> Seq<char> {
    match t {
        Some(t) => t@,
        None => Seq::empty(),
    }
}

/// The text of a command, empty when there is none.
fn command_string(c: &Option<CommandLink>) -> (s: String)
    ensures
        s@ == command_text(*c),
{
    match c {
        Some(c) => {
            let mut s = concat3(c.title.as_str(), " (", c.command.as_str());
            push_str(&mut s, ")");
            s
        },
        None => String::new(),
    }
}

/// A copy of an optional text.
fn copy_optional(t: &Option<String>) -> (r: Option<String>)
    ensures
        r is Some <==> t is Some,
        r matches Some(x) ==> x@ == t->0@,
{
    match t {
        Some(x) => Some(x.clone()),
        None => None,
    }
}

/// A copy of an optional command.
fn copy_command(c: &Option<CommandLink>) -> (r: Option<CommandLink>)
    ensures
        command_text(r) == command_text(*c),
{
    match c {
        Some(c) => Some(CommandLink { title: c.title.clone(), command: c.command.clone() }),
        None => None,
    }
}

/// A copy of a completion.
fn copy_completion(c: &CompletionRecord) -> (r: CompletionRecord)
    ensures
        completion_record_model(r) == completion_record_model(*c),
{
    CompletionRecord {
        label: c.label.clone(),
        kind: c.kind.clone(),
        detail: c.detail.clone(),
        insert_text: copy_optional(&c.insert_text),
        command: copy_command(&c.command),
    }
}

/// A copy of a code action.
fn copy_code_action(a: &CodeActionRecord) -> (r: CodeActionRecord)
    ensures
        code_action_record_model(r) == code_action_record_model(*a),
{
    CodeActionRecord {
        title: a.title.clone(),
        kind: a.kind.clone(),
        tactic: copy_optional(&a.tactic),
        command: copy_command(&a.command),
        diagnostic_count: a.diagnostic_count,
    }
}

/// An optional text, empty when absent.
fn string_or_empty(t: &Option<String>) -> (s: String)
    ensures
        s@ == text_or_empty(*t),
{
    match t {
        Some(t) => t.clone(),
        None => String::new(),
    }
}

/// A theorem found by a hover request, each field as displayed.
#[derive(Clone, Debug, PartialEq, Eq)]
pub struct HoverRecord {
    pub contents: String,
    pub theorem_name: String,
    pub module: String,
    pub kind: String,
    pub statement: String,
    pub attributes: Vec<String>,
    pub uses_axioms: bool,
    pub axiom_dependency_count: usize,
    pub export_hash: Option<String>,
    pub certificate_hash: Option<String>,
    pub decl_interface_hash: String,
}

/// What a hover request answered.
#[derive(Clone, Debug, PartialEq, Eq)]
pub enum HoverLookup {
    Found(HoverRecord),
    NotFound,
    Failed,
}

/// The hover panel for a found theorem.
pub open spec fn hover_found_model(h: HoverRecord) -> HoverModel {
    HoverModel {
        status: "found"@,
        contents: h.contents@,
        theorem_name: h.theorem_name@,
        module: h.module@,
        kind: h.kind@,
        statement: h.statement@,
        attributes: if h.attributes@.len() == 0 {
            "none"@
        } else {
            join(string_views(h.attributes@), ", "@)
        },
        axioms: if h.uses_axioms {
            decimal(h.axiom_dependency_count as nat) + " axiom(s)"@
        } else {
            "none"@
        },
        export_hash: text_or_empty(h.export_hash),
        certificate_hash: text_or_empty(h.certificate_hash),
        decl_interface_hash: h.decl_interface_hash@,
    }
}

impl WebLspHoverResult {
    /// The hover panel for a found theorem: its attributes joined (or
    /// `none`), its axiom use counted (or `none`), absent hashes empty.
    pub fn from_hover(hover: HoverRecord) -> (h: Self)
        ensures
            hover_model(h) == hover_found_model(hover),
            ({
                &&& (h.status@ == "found"@)
                &&& (h.contents@ == hover.contents@)
                &&& (h.theorem_name@ == hover.theorem_name@)
                &&& (h.module@ == hover.module@)
                &&& (h.kind@ == hover.kind@)
                &&& (h.statement@ == hover.statement@)
                &&& (h.decl_interface_hash@ == hover.decl_interface_hash@)
                &&& (hover.attributes@.len() == 0 ==> h.attributes@ == "none"@)
                &&& (hover.attributes@.len() > 0 ==> h.attributes@ == join(string_views(hover.attributes@), ", "@))
                &&& (!hover.uses_axioms ==> h.axioms@ == "none"@)
                &&& (hover.uses_axioms ==> h.axioms@ == decimal(hover.axiom_dependency_count as nat) + " axiom(s)"@)
                &&& (hover.export_hash matches Some(x) ==> h.export_hash@ == x@)
                &&& (hover.export_hash is None ==> h.export_hash@.len() == 0)
                &&& (hover.certificate_hash matches Some(x) ==> h.certificate_hash@ == x@)
                &&& (hover.certificate_hash is None ==> h.certificate_hash@.len() == 0)
            }),
    {
        let attributes = if hover.attributes.len() == 0 {
            owned("none")
        } else {
            join_strings(&hover.attributes, ", ")
        };
        let axioms = if hover.uses_axioms {
            let mut s = decimal_string(hover.axiom_dependency_count as u64);
            push_str(&mut s, " axiom(s)");
            s
        } else {
            owned("none")
        };
        let export_hash = string_or_empty(&hover.export_hash);
        let certificate_hash = string_or_empty(&hover.certificate_hash);
        let ghost record = hover;
        let h = WebLspHoverResult {
            status: owned("found"),
            contents: hover.contents,
            theorem_name: hover.theorem_name,
            module: hover.module,
            kind: hover.kind,
            statement: hover.statement,
            attributes,
            axioms,
            export_hash,
            certificate_hash,
            decl_interface_hash: hover.decl_interface_hash,
        };
        proof {
            law_hover_shows_the_theorem(h, record);
        }
        h
    }
}

/// A found theorem's hover panel shows the theorem as recorded: each text
/// field as it is, its attributes joined (or `none`), its axiom count (or
/// `none` when it uses no axiom), and each hash the record has; a hash is
/// empty only where the record has none.
pub proof fn law_hover_shows_the_theorem(h: WebLspHoverResult, hover: HoverRecord)
    requires
        hover_model(h) == hover_found_model(hover),
    ensures
        ({
            &&& (h.status@ == "found"@)
            &&& (h.contents@ == hover.contents@)
            &&& (h.theorem_name@ == hover.theorem_name@)
            &&& (h.module@ == hover.module@)
            &&& (h.kind@ == hover.kind@)
            &&& (h.statement@ == hover.statement@)
            &&& (h.decl_interface_hash@ == hover.decl_interface_hash@)
            &&& (hover.attributes@.len() == 0 ==> h.attributes@ == "none"@)
            &&& (hover.attributes@.len() > 0 ==> h.attributes@ == join(string_views(hover.attributes@), ", "@))
            &&& (!hover.uses_axioms ==> h.axioms@ == "none"@)
            &&& (hover.uses_axioms ==> h.axioms@ == decimal(hover.axiom_dependency_count as nat) + " axiom(s)"@)
            &&& (hover.export_hash matches Some(x) ==> h.export_hash@ == x@)
            &&& (hover.export_hash is None ==> h.export_hash@.len() == 0)
            &&& (hover.certificate_hash matches Some(x) ==> h.certificate_hash@ == x@)
            &&& (hover.certificate_hash is None ==> h.certificate_hash@.len() == 0)
        }),
{
}

/// The hover panel for what a hover request answered.
pub fn hover_result(lookup: HoverLookup) -> (h: WebLspHoverResult)
    ensures
        hover_model(h) == match lookup {
            HoverLookup::Found(found) => hover_found_model(found),
            HoverLookup::NotFound => hover_message_model("No hover result."@),
            HoverLookup::Failed => hover_message_model("Human LSP hover lookup failed."@),
        },
        lookup matches HoverLookup::Found(found) ==> ({
            &&& (h.status@ == "found"@)
            &&& (h.contents@ == found.contents@)
            &&& (h.theorem_name@ == found.theorem_name@)
            &&& (h.module@ == found.module@)
            &&& (h.kind@ == found.kind@)
            &&& (h.statement@ == found.statement@)
            &&& (h.decl_interface_hash@ == found.decl_interface_hash@)
            &&& (found.attributes@.len() == 0 ==> h.attributes@ == "none"@)
            &&& (found.attributes@.len() > 0 ==> h.attributes@ == join(string_views(found.attributes@), ", "@))
            &&& (!found.uses_axioms ==> h.axioms@ == "none"@)
            &&& (found.uses_axioms ==> h.axioms@ == decimal(found.axiom_dependency_count as nat) + " axiom(s)"@)
            &&& (found.export_hash matches Some(x) ==> h.export_hash@ == x@)
            &&& (found.export_hash is None ==> h.export_hash@.len() == 0)
            &&& (found.certificate_hash matches Some(x) ==> h.certificate_hash@ == x@)
            &&& (found.certificate_hash is None ==> h.certificate_hash@.len() == 0)
        }),
{
    match lookup {
        HoverLookup::Found(found) => WebLspHoverResult::from_hover(found),
        HoverLookup::NotFound => WebLspHoverResult::message("No hover result."),
        HoverLookup::Failed => WebLspHoverResult::message("Human LSP hover lookup failed."),
    }
}

/// A completion item, each field as displayed.
#[derive(Clone, Debug, PartialEq, Eq)]
pub struct CompletionRecord {
    pub label: String,
    pub kind: String,
    pub detail: String,
    pub insert_text: Option<String>,
    pub command: Option<CommandLink>,
}

/// The fields of the item that a completion becomes.
pub open spec fn completion_record_model(c: CompletionRecord) -> (
    Seq<char>,
    Seq<char>,
    Seq<char>,
    Seq<char>,
    Seq<char>,
) {
    (c.label@, c.kind@, c.detail@, text_or_empty(c.insert_text), command_text(c.command))
}

impl WebLspCompletionItem {
    /// The item for a completion.
    pub fn from_item(item: CompletionRecord) -> (i: Self)
        ensures
            completion_item_model(i) == completion_record_model(item),
            ({
                &&& (i.label@ == item.label@)
                &&& (i.kind@ == item.kind@)
                &&& (i.detail@ == item.detail@)
                &&& (item.insert_text matches Some(t) ==> i.insert_text@ == t@)
                &&& (item.insert_text is None ==> i.insert_text@.len() == 0)
                &&& (item.command matches Some(link) ==> i.command@ == link.title@ + " ("@ + link.command@ + ")"@)
                &&& (item.command is None ==> i.command@.len() == 0)
            }),
    {
        let insert_text = string_or_empty(&item.insert_text);
        let command = command_string(&item.command);
        let ghost record = item;
        let i = WebLspCompletionItem {
            label: item.label,
            kind: item.kind,
            detail: item.detail,
            insert_text,
            command,
        };
        proof {
            law_completion_item_shows_the_record(i, record);
        }
        i
    }
}

/// A completion item shows its record: label, kind and detail as they
/// are, the insert text the record has (empty only where it has none),
/// and the command as its title with its id in parentheses (empty only
/// where there is none).
pub proof fn law_completion_item_shows_the_record(i: WebLspCompletionItem, item: CompletionRecord)
    requires
        completion_item_model(i) == completion_record_model(item),
    ensures
        ({
            &&& (i.label@ == item.label@)
            &&& (i.kind@ == item.kind@)
            &&& (i.detail@ == item.detail@)
            &&& (item.insert_text matches Some(t) ==> i.insert_text@ == t@)
            &&& (item.insert_text is None ==> i.insert_text@.len() == 0)
            &&& (item.command matches Some(link) ==> i.command@ == link.title@ + " ("@ + link.command@ + ")"@)
            &&& (item.command is None ==> i.command@.len() == 0)
        }),
{
}

/// A completion panel holds one item per completion, in order, each
/// showing its record, and counts them in its status.
pub proof fn law_completion_panel_shows_every_item(
    c: WebLspCompletionResult,
    items: Seq<CompletionRecord>,
    error: Seq<char>,
)
    requires
        crate::state::completions_model(c) == (CompletionsModel {
            status: decimal(items.len()) + " completion item(s)"@,
            error,
            items: items.map_values(|i: CompletionRecord| completion_record_model(i)),
        }),
    ensures
        c.status@ == decimal(items.len()) + " completion item(s)"@,
        c.error@ == error,
        c.items@.len() == items.len(),
        forall|k: int|
            0 <= k < items.len() ==> ({
                &&& ((#[trigger] c.items@[k]).label@ == items[k].label@)
                &&& ((#[trigger] c.items@[k]).kind@ == items[k].kind@)
                &&& ((#[trigger] c.items@[k]).detail@ == items[k].detail@)
                &&& (items[k].insert_text matches Some(t) ==> (#[trigger] c.items@[k]).insert_text@ == t@)
                &&& (items[k].insert_text is None ==> (#[trigger] c.items@[k]).insert_text@.len() == 0)
                &&& (items[k].command matches Some(link) ==> (#[trigger] c.items@[k]).command@ == link.title@ + " ("@ + link.command@ + ")"@)
                &&& (items[k].command is None ==> (#[trigger] c.items@[k]).command@.len() == 0)
            }),
{
    let cm = crate::state::completions_model(c);
    assert(cm.items.len() == c.items@.len());
    assert forall|k: int| 0 <= k < items.len() implies ({
        &&& ((#[trigger] c.items@[k]).label@ == items[k].label@)
        &&& ((#[trigger] c.items@[k]).kind@ == items[k].kind@)
        &&& ((#[trigger] c.items@[k]).detail@ == items[k].detail@)
        &&& (items[k].insert_text matches Some(t) ==> (#[trigger] c.items@[k]).insert_text@ == t@)
        &&& (items[k].insert_text is None ==> (#[trigger] c.items@[k]).insert_text@.len() == 0)
        &&& (items[k].command matches Some(link) ==> (#[trigger] c.items@[k]).command@ == link.title@ + " ("@ + link.command@ + ")"@)
        &&& (items[k].command is None ==> (#[trigger] c.items@[k]).command@.len() == 0)
    }) by {
        assert(cm.items[k] == completion_item_model(c.items@[k]));
        law_completion_item_shows_the_record(c.items@[k], items[k]);
    }
}

impl WebLspCompletionResult {
    /// The completion panel for a request's items and error text: the
    /// number of items as its status.
    pub fn from_items(items: Vec<CompletionRecord>, error: String) -> (c: Self)
        ensures
            crate::state::completions_model(c) == (CompletionsModel {
                status: decimal(items@.len()) + " completion item(s)"@,
                error: error@,
                items: items@.map_values(|i: CompletionRecord| completion_record_model(i)),
            }),
            c.items@.len() == items@.len(),
            forall|k: int|
                0 <= k < items@.len() ==> ({
                    &&& ((#[trigger] c.items@[k]).label@ == items@[k].label@)
                    &&& ((#[trigger] c.items@[k]).kind@ == items@[k].kind@)
                    &&& ((#[trigger] c.items@[k]).detail@ == items@[k].detail@)
                    &&& (items@[k].insert_text matches Some(t) ==> (#[trigger] c.items@[k]).insert_text@ == t@)
                    &&& (items@[k].insert_text is None ==> (#[trigger] c.items@[k]).insert_text@.len() == 0)
                    &&& (items@[k].command matches Some(link) ==> (#[trigger] c.items@[k]).command@ == link.title@ + " ("@ + link.command@ + ")"@)
                    &&& (items@[k].command is None ==> (#[trigger] c.items@[k]).command@.len() == 0)
                }),
    {
        let mut status = decimal_string(items.len() as u64);
        push_str(&mut status, " completion item(s)");
        let ghost src = items@;
        let mut out: Vec<WebLspCompletionItem> = Vec::new();
        let mut i: usize = 0;
        while i < items.len()
            invariant
                i <= items.len(),
                items@ == src,
                out@.len() == i,
                forall|k: int|
                    0 <= k < i ==> completion_item_model(#[trigger] out@[k])
                        == completion_record_model(src[k]),
            decreases items.len() - i,
        {
            let item = copy_completion(&items[i]);
            out.push(WebLspCompletionItem::from_item(item));
            i += 1;
        }
        let c = WebLspCompletionResult { status, error, items: out };
        assert(crate::state::completions_model(c).items =~= src.map_values(
            |i: CompletionRecord| completion_record_model(i),
        ));
        proof {
            law_completion_panel_shows_every_item(c, src, c.error@);
        }
        c
    }
}

/// A code action, each field as displayed.
#[derive(Clone, Debug, PartialEq, Eq)]
pub struct CodeActionRecord {
    pub title: String,
    pub kind: String,
    pub tactic: Option<String>,
    pub command: Option<CommandLink>,
    pub diagnostic_count: usize,
}

/// The fields of the action that a code action becomes.
pub open spec fn code_action_record_model(a: CodeActionRecord) -> (
    Seq<char>,
    Seq<char>,
    Seq<char>,
    Seq<char>,
    nat,
) {
    (a.title@, a.kind@, text_or_empty(a.tactic), command_text(a.command), a.diagnostic_count as nat)
}

impl WebLspCodeAction {
    /// The action for a code action.
    pub fn from_action(action: CodeActionRecord) -> (a: Self)
        ensures
            code_action_model(a) == code_action_record_model(action),
            ({
                &&& (a.title@ == action.title@)
                &&& (a.kind@ == action.kind@)
                &&& (a.diagnostic_count == action.diagnostic_count)
                &&& (action.tactic matches Some(t) ==> a.tactic@ == t@)
                &&& (action.tactic is None ==> a.tactic@.len() == 0)
                &&& (action.command matches Some(link) ==> a.command@ == link.title@ + " ("@ + link.command@ + ")"@)
                &&& (action.command is None ==> a.command@.len() == 0)
            }),
    {
        let tactic = string_or_empty(&action.tactic);
        let command = command_string(&action.command);
        let ghost record = action;
        let a = WebLspCodeAction {
            title: action.title,
            kind: action.kind,
            tactic,
            command,
            diagnostic_count: action.diagnostic_count,
        };
        proof {
            law_code_action_shows_the_record(a, record);
        }
        a
    }
}

/// A code action shows its record: title, kind and diagnostic count as
/// they are, the tactic the record has (empty only where it has none),
/// and the command as its title with its id in parentheses (empty only
/// where there is none).
pub proof fn law_code_action_shows_the_record(a: WebLspCodeAction, action: CodeActionRecord)
    requires
        code_action_model(a) == code_action_record_model(action),
    ensures
        ({
            &&& (a.title@ == action.title@)
            &&& (a.kind@ == action.kind@)
            &&& (a.diagnostic_count == action.diagnostic_count)
            &&& (action.tactic matches Some(t) ==> a.tactic@ == t@)
            &&& (action.tactic is None ==> a.tactic@.len() == 0)
            &&& (action.command matches Some(link) ==> a.command@ == link.title@ + " ("@ + link.command@ + ")"@)
            &&& (action.command is None ==> a.command@.len() == 0)
        }),
{
}

/// A code action panel holds one action per code action, in order, each
/// showing its record, and counts them in its status.
pub proof fn law_code_action_panel_shows_every_action(
    c: WebLspCodeActionResult,
    actions: Seq<CodeActionRecord>,
    error: Seq<char>,
)
    requires
        crate::state::code_actions_model(c) == (CodeActionsModel {
            status: decimal(actions.len()) + " code action(s)"@,
            error,
            actions: actions.map_values(|a: CodeActionRecord| code_action_record_model(a)),
        }),
    ensures
        c.status@ == decimal(actions.len()) + " code action(s)"@,
        c.error@ == error,
        c.actions@.len() == actions.len(),
        forall|k: int|
            0 <= k < actions.len() ==> ({
                &&& ((#[trigger] c.actions@[k]).title@ == actions[k].title@)
                &&& ((#[trigger] c.actions@[k]).kind@ == actions[k].kind@)
                &&& ((#[trigger] c.actions@[k]).diagnostic_count == actions[k].diagnostic_count)
                &&& (actions[k].tactic matches Some(t) ==> (#[trigger] c.actions@[k]).tactic@ == t@)
                &&& (actions[k].tactic is None ==> (#[trigger] c.actions@[k]).tactic@.len() == 0)
                &&& (actions[k].command matches Some(link) ==> (#[trigger] c.actions@[k]).command@ == link.title@ + " ("@ + link.command@ + ")"@)
                &&& (actions[k].command is None ==> (#[trigger] c.actions@[k]).command@.len() == 0)
            }),
{
    let cm = crate::state::code_actions_model(c);
    assert(cm.actions.len() == c.actions@.len());
    assert forall|k: int| 0 <= k < actions.len() implies ({
        &&& ((#[trigger] c.actions@[k]).title@ == actions[k].title@)
        &&& ((#[trigger] c.actions@[k]).kind@ == actions[k].kind@)
        &&& ((#[trigger] c.actions@[k]).diagnostic_count == actions[k].diagnostic_count)
        &&& (actions[k].tactic matches Some(t) ==> (#[trigger] c.actions@[k]).tactic@ == t@)
        &&& (actions[k].tactic is None ==> (#[trigger] c.actions@[k]).tactic@.len() == 0)
        &&& (actions[k].command matches Some(link) ==> (#[trigger] c.actions@[k]).command@ == link.title@ + " ("@ + link.command@ + ")"@)
        &&& (actions[k].command is None ==> (#[trigger] c.actions@[k]).command@.len() == 0)
    }) by {
        assert(cm.actions[k] == code_action_model(c.actions@[k]));
        law_code_action_shows_the_record(c.actions@[k], actions[k]);
    }
}

impl WebLspCodeActionResult {
    /// The code action panel for a request's actions and error text: the
    /// number of actions as its status.
    pub fn from_actions(actions: Vec<CodeActionRecord>, error: String) -> (c: Self)
        ensures
            crate::state::code_actions_model(c) == (CodeActionsModel {
                status: decimal(actions@.len()) + " code action(s)"@,
                error: error@,
                actions: actions@.map_values(|a: CodeActionRecord| code_action_record_model(a)),
            }),
            c.actions@.len() == actions@.len(),
            forall|k: int|
                0 <= k < actions@.len() ==> ({
                    &&& ((#[trigger] c.actions@[k]).title@ == actions@[k].title@)
                    &&& ((#[trigger] c.actions@[k]).kind@ == actions@[k].kind@)
                    &&& ((#[trigger] c.actions@[k]).diagnostic_count == actions@[k].diagnostic_count)
                    &&& (actions@[k].tactic matches Some(t) ==> (#[trigger] c.actions@[k]).tactic@ == t@)
                    &&& (actions@[k].tactic is None ==> (#[trigger] c.actions@[k]).tactic@.len() == 0)
                    &&& (actions@[k].command matches Some(link) ==> (#[trigger] c.actions@[k]).command@ == link.title@ + " ("@ + link.command@ + ")"@)
                    &&& (actions@[k].command is None ==> (#[trigger] c.actions@[k]).command@.len() == 0)
                }),
    {
        let mut status = decimal_string(actions.len() as u64);
        push_str(&mut status, " code action(s)");
        let ghost src = actions@;
        let mut out: Vec<WebLspCodeAction> = Vec::new();
        let mut i: usize = 0;
        while i < actions.len()
            invariant
                i <= actions.len(),
                actions@ == src,
                out@.len() == i,
                forall|k: int|
                    0 <= k < i ==> code_action_model(#[trigger] out@[k]) == code_action_record_model(
                        src[k],
                    ),
            decreases actions.len() - i,
        {
            let action = copy_code_action(&actions[i]);
            out.push(WebLspCodeAction::from_action(action));
            i += 1;
        }
        let c = WebLspCodeActionResult { status, error, actions: out };
        assert(crate::state::code_actions_model(c).actions =~= src.map_values(
            |a: CodeActionRecord| code_action_record_model(a),
        ));
        proof {
            law_code_action_panel_shows_every_action(c, src, c.error@);
        }
        c
    }
}

} // verus!
