//! The state of the human-facing proof flow as the browser sees it: the
//! demo modes, the form inputs, the workspace with its goal, messages,
//! verify panel and LSP panels, and the flow errors.
//!
//! Each data type has a ghost model of its text fields; the render views
//! have the same models, and every `to_view` keeps the model.
use vstd::prelude::*;

use crate::render;
use crate::std_demo;
use crate::text::{owned, str_eq};

verus! {

/// The proof source of the import-free demo.
pub const DEFAULT_SOURCE: &'static str = "theorem id (A : Type) (x : A) : A := by exact x";

/// The module of the import-free demo.
pub const DEFAULT_MODULE: &'static str = "Scratch";

/// The theorem of the import-free demo.
pub const DEFAULT_THEOREM: &'static str = "Scratch.id";

/// The largest proof source accepted, in bytes (128 KiB).
pub const MAX_SOURCE_BYTES: usize = 131072;

/// The largest tactic accepted, in bytes (4 KiB).
pub const MAX_TACTIC_BYTES: usize = 4096;

/// The theorem that the hover panel asks for first.
pub const DEFAULT_LSP_HOVER_NAME: &'static str = "Scratch.id";

/// The most completion items and code actions asked for.
pub const LSP_MAX_RESULTS: usize = 8;

/// The two demos.
#[derive(Clone, Copy, Debug, PartialEq, Eq, Structural)]
pub enum DemoMode {
    ImportFree,
    Standard,
}

/// The wire id of a demo.
pub open spec fn demo_id_text(demo: DemoMode) -> Seq<char> {
    match demo {
        DemoMode::ImportFree => "import-free"@,
        DemoMode::Standard => "standard"@,
    }
}

/// The label of a demo.
pub open spec fn demo_label_text(demo: DemoMode) -> Seq<char> {
    match demo {
        DemoMode::ImportFree => "Import-free"@,
        DemoMode::Standard => "Standard library"@,
    }
}

/// The source a demo starts with.
pub open spec fn demo_source_text(demo: DemoMode) -> Seq<char> {
    match demo {
        DemoMode::ImportFree => DEFAULT_SOURCE@,
        DemoMode::Standard => std_demo::STANDARD_DEMO_SOURCE@,
    }
}

/// The module a demo starts with.
pub open spec fn demo_module_text(demo: DemoMode) -> Seq<char> {
    match demo {
        DemoMode::ImportFree => DEFAULT_MODULE@,
        DemoMode::Standard => std_demo::STANDARD_DEMO_MODULE@,
    }
}

/// The theorem a demo starts with.
pub open spec fn demo_theorem_text(demo: DemoMode) -> Seq<char> {
    match demo {
        DemoMode::ImportFree => DEFAULT_THEOREM@,
        DemoMode::Standard => std_demo::STANDARD_DEMO_THEOREM@,
    }
}

/// The demo whose wire id is exactly `value`, if any.
pub open spec fn demo_from_wire_text(value: Seq<char>) -> Option<DemoMode> {
    if value == "import-free"@ {
        Some(DemoMode::ImportFree)
    } else if value == "standard"@ {
        Some(DemoMode::Standard)
    } else {
        None
    }
}

impl DemoMode {
    /// Both demos, in display order.
    pub fn all() -> (demos: Vec<DemoMode>)
        ensures
            demos@ == seq![DemoMode::ImportFree, DemoMode::Standard],
    {
        let mut demos = Vec::new();
        demos.push(DemoMode::ImportFree);
        demos.push(DemoMode::Standard);
        assert(demos@ =~= seq![DemoMode::ImportFree, DemoMode::Standard]);
        demos
    }

    /// The wire id of the demo.
    pub fn as_str(self) -> (s: &'static str)
        ensures
            s@ == demo_id_text(self),
    {
        match self {
            DemoMode::ImportFree => "import-free",
            DemoMode::Standard => "standard",
        }
    }

    /// The label of the demo.
    pub fn label(self) -> (s: &'static str)
        ensures
            s@ == demo_label_text(self),
    {
        match self {
            DemoMode::ImportFree => "Import-free",
            DemoMode::Standard => "Standard library",
        }
    }

    /// The source the demo starts with.
    pub fn default_source(self) -> (s: &'static str)
        ensures
            s@ == demo_source_text(self),
    {
        match self {
            DemoMode::ImportFree => DEFAULT_SOURCE,
            DemoMode::Standard => std_demo::STANDARD_DEMO_SOURCE,
        }
    }

    /// The module the demo starts with.
    pub fn default_module(self) -> (s: &'static str)
        ensures
            s@ == demo_module_text(self),
    {
        match self {
            DemoMode::ImportFree => DEFAULT_MODULE,
            DemoMode::Standard => std_demo::STANDARD_DEMO_MODULE,
        }
    }

    /// The theorem the demo starts with.
    pub fn default_theorem(self) -> (s: &'static str)
        ensures
            s@ == demo_theorem_text(self),
    {
        match self {
            DemoMode::ImportFree => DEFAULT_THEOREM,
            DemoMode::Standard => std_demo::STANDARD_DEMO_THEOREM,
        }
    }

    /// The demo whose wire id is exactly `value`, if any.
    pub fn from_wire(value: &str) -> (r: Option<Self>)
        ensures
            r == demo_from_wire_text(value@),
            r matches Some(demo) ==> demo_id_text(demo) == value@,
            r is None ==> (forall|demo: DemoMode| demo_id_text(demo) != value@),
    {
        if str_eq(value, "import-free") {
            Some(DemoMode::ImportFree)
        } else if str_eq(value, "standard") {
            Some(DemoMode::Standard)
        } else {
            proof {
                assert forall|demo: DemoMode| demo_id_text(demo) != value@ by {
                    match demo {
                        DemoMode::ImportFree => {},
                        DemoMode::Standard => {},
                    }
                }
            }
            None
        }
    }
}

impl Default for DemoMode {
    fn default() -> (demo: Self)
        ensures
            demo == DemoMode::ImportFree,
    {
        DemoMode::ImportFree
    }
}

/// Reading a demo's own wire id gives that demo back, and a wire value
/// selects a demo only when it is exactly that demo's id.
pub proof fn lemma_demo_wire_round_trip(demo: DemoMode, value: Seq<char>)
    ensures
        demo_from_wire_text(demo_id_text(demo)) == Some(demo),
        demo_from_wire_text(value) == Some(demo) ==> value == demo_id_text(demo),
{
    reveal_strlit("import-free");
    reveal_strlit("standard");
    assert("import-free"@ != "standard"@) by {
        assert("import-free"@.len() != "standard"@.len());
    }
}

/// The source form's input for a new session.
#[derive(Clone, Debug, PartialEq, Eq)]
pub struct CreateSessionInput {
    pub demo: DemoMode,
    pub source: String,
    pub module: String,
    pub theorem: String,
}

impl CreateSessionInput {
    /// The input that a demo starts with.
    pub fn for_demo(demo: DemoMode) -> (input: Self)
        ensures
            input.demo == demo,
            input.source@ == demo_source_text(demo),
            input.module@ == demo_module_text(demo),
            input.theorem@ == demo_theorem_text(demo),
    {
        CreateSessionInput {
            demo,
            source: owned(demo.default_source()),
            module: owned(demo.default_module()),
            theorem: owned(demo.default_theorem()),
        }
    }
}

impl Default for CreateSessionInput {
    fn default() -> (input: Self)
        ensures
            input.demo == DemoMode::ImportFree,
            input.source@ == DEFAULT_SOURCE@,
            input.module@ == DEFAULT_MODULE@,
            input.theorem@ == DEFAULT_THEOREM@,
    {
        Self::for_demo(DemoMode::ImportFree)
    }
}

/// The input for running a tactic on a goal.
#[derive(Clone, Debug, PartialEq, Eq)]
pub struct RunTacticInput {
    pub session_id: String,
    pub document_id: String,
    pub document_version: String,
    pub state_id: String,
    pub goal_id: String,
    pub tactic: String,
}

impl RunTacticInput {
    /// The input for running `tactic` on the workspace's selected goal.
    pub fn for_workspace(workspace: &WebWorkspace, tactic: &str) -> (input: Self)
        ensures
            input.session_id@ == workspace.session_id@,
            input.document_id@ == workspace.document_id@,
            input.document_version@ == workspace.document_version@,
            input.state_id@ == workspace.state_id@,
            input.goal_id@ == workspace.goal_id@,
            input.tactic@ == tactic@,
    {
        RunTacticInput {
            session_id: workspace.session_id.clone(),
            document_id: workspace.document_id.clone(),
            document_version: workspace.document_version.clone(),
            state_id: workspace.state_id.clone(),
            goal_id: workspace.goal_id.clone(),
            tactic: owned(tactic),
        }
    }
}

/// The input for verifying a proof state.
#[derive(Clone, Debug, PartialEq, Eq)]
pub struct VerifyInput {
    pub session_id: String,
    pub document_id: String,
    pub document_version: String,
    pub state_id: String,
}

impl VerifyInput {
    /// The input for verifying the workspace's state.
    pub fn for_workspace(workspace: &WebWorkspace) -> (input: Self)
        ensures
            input.session_id@ == workspace.session_id@,
            input.document_id@ == workspace.document_id@,
            input.document_version@ == workspace.document_version@,
            input.state_id@ == workspace.state_id@,
    {
        VerifyInput {
            session_id: workspace.session_id.clone(),
            document_id: workspace.document_id.clone(),
            document_version: workspace.document_version.clone(),
            state_id: workspace.state_id.clone(),
        }
    }
}

/// The input for the LSP panels.
#[derive(Clone, Debug, PartialEq, Eq)]
pub struct LspPanelInput {
    pub session_id: String,
    pub document_id: String,
    pub document_version: String,
    pub state_id: String,
    pub goal_id: String,
    pub hover_name: String,
}

impl LspPanelInput {
    /// The input for the workspace's LSP panels, asking to hover the
    /// default theorem name.
    pub fn for_workspace(workspace: &WebWorkspace) -> (input: Self)
        ensures
            input.session_id@ == workspace.session_id@,
            input.document_id@ == workspace.document_id@,
            input.document_version@ == workspace.document_version@,
            input.state_id@ == workspace.state_id@,
            input.goal_id@ == workspace.goal_id@,
            input.hover_name@ == DEFAULT_LSP_HOVER_NAME@,
    {
        LspPanelInput {
            session_id: workspace.session_id.clone(),
            document_id: workspace.document_id.clone(),
            document_version: workspace.document_version.clone(),
            state_id: workspace.state_id.clone(),
            goal_id: workspace.goal_id.clone(),
            hover_name: owned(DEFAULT_LSP_HOVER_NAME),
        }
    }
}

/// The proof workspace shown after each step.
#[derive(Clone, Debug, PartialEq, Eq)]
pub struct WebWorkspace {
    pub session_id: String,
    pub document_id: String,
    pub document_version: String,
    pub state_id: String,
    pub goal_id: String,
    pub tactic_input: String,
    pub goal: WebGoal,
    pub messages: Vec<WebMessage>,
    pub verify: WebVerify,
    pub lsp: WebLspPanels,
}

/// The selected goal, if there is one.
#[derive(Clone, Debug, PartialEq, Eq)]
pub struct WebGoal {
    pub has_goal: bool,
    pub label: String,
    pub context: Vec<WebBinding>,
    pub target: String,
}

/// One hypothesis of a goal's context.
#[derive(Clone, Debug, PartialEq, Eq)]
pub struct WebBinding {
    pub name: String,
    pub ty: String,
}

/// One message of the message list.
#[derive(Clone, Debug, PartialEq, Eq)]
pub struct WebMessage {
    pub severity: String,
    pub text: String,
}

/// The LSP panels of a workspace.
#[derive(Clone, Debug, PartialEq, Eq)]
pub struct WebLspPanels {
    pub session_id: String,
    pub document_id: String,
    pub document_version: String,
    pub state_id: String,
    pub goal_id: String,
    pub hover_name: String,
    pub hover: WebLspHoverResult,
    pub completions: WebLspCompletionResult,
    pub code_actions: WebLspCodeActionResult,
}

/// The hover panel.
#[derive(Clone, Debug, PartialEq, Eq)]
pub struct WebLspHoverResult {
    pub status: String,
    pub contents: String,
    pub theorem_name: String,
    pub module: String,
    pub kind: String,
    pub statement: String,
    pub attributes: String,
    pub axioms: String,
    pub export_hash: String,
    pub certificate_hash: String,
    pub decl_interface_hash: String,
}

/// The completion panel.
#[derive(Clone, Debug, PartialEq, Eq)]
pub struct WebLspCompletionResult {
    pub status: String,
    pub error: String,
    pub items: Vec<WebLspCompletionItem>,
}

/// One completion item.
#[derive(Clone, Debug, PartialEq, Eq)]
pub struct WebLspCompletionItem {
    pub label: String,
    pub kind: String,
    pub detail: String,
    pub insert_text: String,
    pub command: String,
}

/// The code action panel.
#[derive(Clone, Debug, PartialEq, Eq)]
pub struct WebLspCodeActionResult {
    pub status: String,
    pub error: String,
    pub actions: Vec<WebLspCodeAction>,
}

/// One code action.
#[derive(Clone, Debug, PartialEq, Eq)]
pub struct WebLspCodeAction {
    pub title: String,
    pub kind: String,
    pub tactic: String,
    pub command: String,
    pub diagnostic_count: usize,
}

/// The verify panel.
#[derive(Clone, Debug, PartialEq, Eq)]
pub struct WebVerify {
    pub status: String,
    pub detail: String,
    pub root_decl_certificate_hash: String,
    pub certificate_hash: String,
    pub imports: Vec<WebImportSummary>,
}

/// One verified import.
#[derive(Clone, Debug, PartialEq, Eq)]
pub struct WebImportSummary {
    pub module: String,
    pub export_hash: String,
    pub certificate_hash: String,
    pub axiom_count: usize,
}

/// A failure of the proof flow that the user sees.
#[derive(Clone, Debug, PartialEq, Eq)]
pub struct WebFlowError {
    kind: WebFlowErrorKind,
    message: String,
}

/// What a flow failure was about.
#[derive(Clone, Copy, Debug, PartialEq, Eq, Structural)]
pub enum WebFlowErrorKind {
    SourceTooLarge,
    TacticTooLarge,
    UnsupportedImport,
    StandardDemoFixture,
    InvalidName,
    InvalidDocumentVersion,
    SessionStoreUnavailable,
    HumanSessionCreate,
    HumanProofStart,
    HumanStateLookup,
}

impl WebFlowError {
    /// What the failure was about.
    pub closed spec fn kind_view(&self) -> WebFlowErrorKind {
        self.kind
    }

    /// The message shown to the user.
    pub closed spec fn message_view(&self) -> Seq<char> {
        self.message@
    }

    /// What the failure was about.
    pub fn kind(&self) -> (k: WebFlowErrorKind)
        ensures
            k == self.kind_view(),
    {
        self.kind
    }

    /// The message shown to the user.
    pub fn user_message(&self) -> (s: &str)
        ensures
            s@ == self.message_view(),
    {
        self.message.as_str()
    }

    /// The error as displayed: its message.
    pub fn to_message(&self) -> (s: String)
        ensures
            s@ == self.message_view(),
    {
        self.message.clone()
    }

    /// A failure of kind `kind` with `message`.
    pub fn new(kind: WebFlowErrorKind, message: String) -> (e: Self)
        ensures
            e.kind_view() == kind,
            e.message_view() == message@,
    {
        WebFlowError { kind, message }
    }
}

// ---------------------------------------------------------------------
// Models
// ---------------------------------------------------------------------

/// The text fields of a goal.
pub ghost struct GoalModel {
    pub has_goal: bool,
    pub label: Seq<char>,
    pub context: Seq<(Seq<char>, Seq<char>)>,
    pub target: Seq<char>,
}

/// The text fields of a verify panel.
pub ghost struct VerifyModel {
    pub status: Seq<char>,
    pub detail: Seq<char>,
    pub root_decl_certificate_hash: Seq<char>,
    pub certificate_hash: Seq<char>,
    pub imports: Seq<(Seq<char>, Seq<char>, Seq<char>, nat)>,
}

/// The text fields of a hover panel.
pub ghost struct HoverModel {
    pub status: Seq<char>,
    pub contents: Seq<char>,
    pub theorem_name: Seq<char>,
    pub module: Seq<char>,
    pub kind: Seq<char>,
    pub statement: Seq<char>,
    pub attributes: Seq<char>,
    pub axioms: Seq<char>,
    pub export_hash: Seq<char>,
    pub certificate_hash: Seq<char>,
    pub decl_interface_hash: Seq<char>,
}

/// The text fields of a completion panel.
pub ghost struct CompletionsModel {
    pub status: Seq<char>,
    pub error: Seq<char>,
    pub items: Seq<(Seq<char>, Seq<char>, Seq<char>, Seq<char>, Seq<char>)>,
}

/// The text fields of a code action panel.
pub ghost struct CodeActionsModel {
    pub status: Seq<char>,
    pub error: Seq<char>,
    pub actions: Seq<(Seq<char>, Seq<char>, Seq<char>, Seq<char>, nat)>,
}

/// The text fields of the LSP panels.
pub ghost struct LspPanelsModel {
    pub session_id: Seq<char>,
    pub document_id: Seq<char>,
    pub document_version: Seq<char>,
    pub state_id: Seq<char>,
    pub goal_id: Seq<char>,
    pub hover_name: Seq<char>,
    pub hover: HoverModel,
    pub completions: CompletionsModel,
    pub code_actions: CodeActionsModel,
}

/// The text fields of a workspace.
pub ghost struct WorkspaceModel {
    pub session_id: Seq<char>,
    pub document_id: Seq<char>,
    pub document_version: Seq<char>,
    pub state_id: Seq<char>,
    pub goal_id: Seq<char>,
    pub tactic_input: Seq<char>,
    pub goal: GoalModel,
    pub messages: Seq<(Seq<char>, Seq<char>)>,
    pub verify: VerifyModel,
    pub lsp: LspPanelsModel,
}

/// The severity and text of a message.
pub open spec fn message_model(m: WebMessage) -> (Seq<char>, Seq<char>) {
    (m.severity@, m.text@)
}

/// The severity and text of each message.
pub open spec fn messages_model(ms: Seq<WebMessage>) -> Seq<(Seq<char>, Seq<char>)> {
    ms.map_values(|m: WebMessage| message_model(m))
}

/// The name and type of each hypothesis.
pub open spec fn bindings_model(bs: Seq<WebBinding>) -> Seq<(Seq<char>, Seq<char>)> {
    bs.map_values(|b: WebBinding| (b.name@, b.ty@))
}

/// The text fields of a goal.
pub open spec fn goal_model(g: WebGoal) -> GoalModel {
    GoalModel {
        has_goal: g.has_goal,
        label: g.label@,
        context: bindings_model(g.context@),
        target: g.target@,
    }
}

/// The fields of each import summary.
pub open spec fn imports_model(is: Seq<WebImportSummary>) -> Seq<
    (Seq<char>, Seq<char>, Seq<char>, nat),
> {
    is.map_values(
        |i: WebImportSummary|
            (i.module@, i.export_hash@, i.certificate_hash@, i.axiom_count as nat),
    )
}

/// The text fields of a verify panel.
pub open spec fn verify_model(v: WebVerify) -> VerifyModel {
    VerifyModel {
        status: v.status@,
        detail: v.detail@,
        root_decl_certificate_hash: v.root_decl_certificate_hash@,
        certificate_hash: v.certificate_hash@,
        imports: imports_model(v.imports@),
    }
}

/// The text fields of a hover panel.
pub open spec fn hover_model(h: WebLspHoverResult) -> HoverModel {
    HoverModel {
        status: h.status@,
        contents: h.contents@,
        theorem_name: h.theorem_name@,
        module: h.module@,
        kind: h.kind@,
        statement: h.statement@,
        attributes: h.attributes@,
        axioms: h.axioms@,
        export_hash: h.export_hash@,
        certificate_hash: h.certificate_hash@,
        decl_interface_hash: h.decl_interface_hash@,
    }
}

/// The fields of a completion item.
pub open spec fn completion_item_model(i: WebLspCompletionItem) -> (
    Seq<char>,
    Seq<char>,
    Seq<char>,
    Seq<char>,
    Seq<char>,
) {
    (i.label@, i.kind@, i.detail@, i.insert_text@, i.command@)
}

/// The text fields of a completion panel.
pub open spec fn completions_model(c: WebLspCompletionResult) -> CompletionsModel {
    CompletionsModel {
        status: c.status@,
        error: c.error@,
        items: c.items@.map_values(|i: WebLspCompletionItem| completion_item_model(i)),
    }
}

/// The fields of a code action.
pub open spec fn code_action_model(a: WebLspCodeAction) -> (
    Seq<char>,
    Seq<char>,
    Seq<char>,
    Seq<char>,
    nat,
) {
    (a.title@, a.kind@, a.tactic@, a.command@, a.diagnostic_count as nat)
}

/// The text fields of a code action panel.
pub open spec fn code_actions_model(c: WebLspCodeActionResult) -> CodeActionsModel {
    CodeActionsModel {
        status: c.status@,
        error: c.error@,
        actions: c.actions@.map_values(|a: WebLspCodeAction| code_action_model(a)),
    }
}

/// The text fields of the LSP panels.
pub open spec fn lsp_panels_model(p: WebLspPanels) -> LspPanelsModel {
    LspPanelsModel {
        session_id: p.session_id@,
        document_id: p.document_id@,
        document_version: p.document_version@,
        state_id: p.state_id@,
        goal_id: p.goal_id@,
        hover_name: p.hover_name@,
        hover: hover_model(p.hover),
        completions: completions_model(p.completions),
        code_actions: code_actions_model(p.code_actions),
    }
}

/// The text fields of a workspace.
pub open spec fn workspace_model(w: WebWorkspace) -> WorkspaceModel {
    WorkspaceModel {
        session_id: w.session_id@,
        document_id: w.document_id@,
        document_version: w.document_version@,
        state_id: w.state_id@,
        goal_id: w.goal_id@,
        tactic_input: w.tactic_input@,
        goal: goal_model(w.goal),
        messages: messages_model(w.messages@),
        verify: verify_model(w.verify),
        lsp: lsp_panels_model(w.lsp),
    }
}

/// The text fields of a goal view.
pub open spec fn goal_view_model(g: render::GoalView) -> GoalModel {
    GoalModel {
        has_goal: g.has_goal,
        label: g.label@,
        context: g.context@.map_values(|b: render::BindingView| (b.name@, b.ty@)),
        target: g.target@,
    }
}

/// The severity and text of each message view.
pub open spec fn messages_view_model(m: render::MessagesView) -> Seq<(Seq<char>, Seq<char>)> {
    m.items@.map_values(|i: render::MessageView| (i.severity@, i.text@))
}

/// The text fields of a verify view.
pub open spec fn verify_view_model(v: render::VerifyView) -> VerifyModel {
    VerifyModel {
        status: v.status@,
        detail: v.detail@,
        root_decl_certificate_hash: v.root_decl_certificate_hash@,
        certificate_hash: v.certificate_hash@,
        imports: v.imports@.map_values(
            |i: render::VerifyImportView|
                (i.module@, i.export_hash@, i.certificate_hash@, i.axiom_count as nat),
        ),
    }
}

/// The text fields of a hover view.
pub open spec fn hover_view_model(h: render::LspHoverResultView) -> HoverModel {
    HoverModel {
        status: h.status@,
        contents: h.contents@,
        theorem_name: h.theorem_name@,
        module: h.module@,
        kind: h.kind@,
        statement: h.statement@,
        attributes: h.attributes@,
        axioms: h.axioms@,
        export_hash: h.export_hash@,
        certificate_hash: h.certificate_hash@,
        decl_interface_hash: h.decl_interface_hash@,
    }
}

/// The text fields of a completion view.
pub open spec fn completions_view_model(c: render::LspCompletionResultView) -> CompletionsModel {
    CompletionsModel {
        status: c.status@,
        error: c.error@,
        items: c.items@.map_values(
            |i: render::LspCompletionItemView|
                (i.label@, i.kind@, i.detail@, i.insert_text@, i.command@),
        ),
    }
}

/// The text fields of a code action view.
pub open spec fn code_actions_view_model(c: render::LspCodeActionResultView) -> CodeActionsModel {
    CodeActionsModel {
        status: c.status@,
        error: c.error@,
        actions: c.actions@.map_values(
            |a: render::LspCodeActionView|
                (a.title@, a.kind@, a.tactic@, a.command@, a.diagnostic_count as nat),
        ),
    }
}

/// The text fields of an LSP panels view.
pub open spec fn lsp_panels_view_model(p: render::LspPanelsView) -> LspPanelsModel {
    LspPanelsModel {
        session_id: p.session_id@,
        document_id: p.document_id@,
        document_version: p.document_version@,
        state_id: p.state_id@,
        goal_id: p.goal_id@,
        hover_name: p.hover_name@,
        hover: hover_view_model(p.hover),
        completions: completions_view_model(p.completions),
        code_actions: code_actions_view_model(p.code_actions),
    }
}

/// The text fields of a workspace view.
pub open spec fn workspace_view_model(w: render::WorkspaceView) -> WorkspaceModel {
    WorkspaceModel {
        session_id: w.session_id@,
        document_id: w.document_id@,
        document_version: w.document_version@,
        state_id: w.state_id@,
        goal_id: w.goal_id@,
        tactic_input: w.tactic_input@,
        goal: goal_view_model(w.goal),
        messages: messages_view_model(w.messages),
        verify: verify_view_model(w.verify),
        lsp: lsp_panels_view_model(w.lsp),
    }
}

/// The hover panel before any request: every field empty but the status.
pub open spec fn hover_message_model(status: Seq<char>) -> HoverModel {
    HoverModel {
        status,
        contents: Seq::empty(),
        theorem_name: Seq::empty(),
        module: Seq::empty(),
        kind: Seq::empty(),
        statement: Seq::empty(),
        attributes: Seq::empty(),
        axioms: Seq::empty(),
        export_hash: Seq::empty(),
        certificate_hash: Seq::empty(),
        decl_interface_hash: Seq::empty(),
    }
}

/// The verify panel before verification.
pub open spec fn pending_verify_model() -> VerifyModel {
    VerifyModel {
        status: "not run"@,
        detail: "Verify after all goals are closed."@,
        root_decl_certificate_hash: Seq::empty(),
        certificate_hash: Seq::empty(),
        imports: Seq::empty(),
    }
}

// ---------------------------------------------------------------------
// Constructors and views
// ---------------------------------------------------------------------

impl WebWorkspace {
    /// The workspace as the render view shows it: every field as it is.
    pub fn to_view(&self) -> (v: render::WorkspaceView<'_>)
        ensures
            workspace_view_model(v) == workspace_model(*self),
    {
        let mut items: Vec<render::MessageView<'_>> = Vec::new();
        let mut i: usize = 0;
        while i < self.messages.len()
            invariant
                i <= self.messages.len(),
                items@.len() == i,
                forall|k: int|
                    0 <= k < i ==> (#[trigger] items@[k]).severity@ == self.messages@[k].severity@
                        && items@[k].text@ == self.messages@[k].text@,
            decreases self.messages.len() - i,
        {
            items.push(self.messages[i].to_view());
            i += 1;
        }
        let messages = render::MessagesView { items };
        assert(messages_view_model(messages) =~= messages_model(self.messages@));
        render::WorkspaceView {
            session_id: self.session_id.as_str(),
            document_id: self.document_id.as_str(),
            document_version: self.document_version.as_str(),
            state_id: self.state_id.as_str(),
            goal_id: self.goal_id.as_str(),
            tactic_input: self.tactic_input.as_str(),
            goal: self.goal.to_view(),
            messages,
            verify: self.verify.to_view(),
            lsp: self.lsp.to_view(),
        }
    }
}

impl WebGoal {
    /// The absence of a goal.
    pub fn empty() -> (g: Self)
        ensures
            goal_model(g) == (GoalModel {
                has_goal: false,
                label: Seq::empty(),
                context: Seq::empty(),
                target: Seq::empty(),
            }),
    {
        let g = WebGoal {
            has_goal: false,
            label: String::new(),
            context: Vec::new(),
            target: String::new(),
        };
        assert(bindings_model(g.context@) =~= Seq::empty());
        g
    }

    /// The goal as the render view shows it.
    pub fn to_view(&self) -> (v: render::GoalView<'_>)
        ensures
            goal_view_model(v) == goal_model(*self),
    {
        let mut context: Vec<render::BindingView<'_>> = Vec::new();
        let mut i: usize = 0;
        while i < self.context.len()
            invariant
                i <= self.context.len(),
                context@.len() == i,
                forall|k: int|
                    0 <= k < i ==> (#[trigger] context@[k]).name@ == self.context@[k].name@
                        && context@[k].ty@ == self.context@[k].ty@,
            decreases self.context.len() - i,
        {
            let binding = &self.context[i];
            context.push(
                render::BindingView { name: binding.name.as_str(), ty: binding.ty.as_str() },
            );
            i += 1;
        }
        let v = render::GoalView {
            has_goal: self.has_goal,
            label: self.label.as_str(),
            context,
            target: self.target.as_str(),
        };
        assert(goal_view_model(v).context =~= bindings_model(self.context@));
        v
    }
}

impl WebMessage {
    /// An informational message.
    pub fn info(text: String) -> (m: Self)
        ensures
            m.severity@ == "info"@,
            m.text@ == text@,
    {
        WebMessage { severity: owned("info"), text }
    }

    /// An error message.
    pub fn error(text: String) -> (m: Self)
        ensures
            m.severity@ == "error"@,
            m.text@ == text@,
    {
        WebMessage { severity: owned("error"), text }
    }

    /// The message as the render view shows it.
    pub fn to_view(&self) -> (v: render::MessageView<'_>)
        ensures
            v.severity@ == self.severity@,
            v.text@ == self.text@,
    {
        render::MessageView { severity: self.severity.as_str(), text: self.text.as_str() }
    }
}

impl WebLspPanels {
    /// The panels of a new workspace state: its ids, the default hover
    /// name, and no request made yet.
    pub fn pending(
        session_id: String,
        document_id: String,
        document_version: String,
        state_id: String,
        goal_id: String,
    ) -> (p: Self)
        ensures
            lsp_panels_model(p) == (LspPanelsModel {
                session_id: session_id@,
                document_id: document_id@,
                document_version: document_version@,
                state_id: state_id@,
                goal_id: goal_id@,
                hover_name: DEFAULT_LSP_HOVER_NAME@,
                hover: hover_message_model("not requested"@),
                completions: CompletionsModel {
                    status: "not requested"@,
                    error: Seq::empty(),
                    items: Seq::empty(),
                },
                code_actions: CodeActionsModel {
                    status: "not requested"@,
                    error: Seq::empty(),
                    actions: Seq::empty(),
                },
            }),
    {
        let p = WebLspPanels {
            session_id,
            document_id,
            document_version,
            state_id,
            goal_id,
            hover_name: owned(DEFAULT_LSP_HOVER_NAME),
            hover: WebLspHoverResult::idle(),
            completions: WebLspCompletionResult::idle(),
            code_actions: WebLspCodeActionResult::idle(),
        };
        assert(completions_model(p.completions).items =~= Seq::empty());
        assert(code_actions_model(p.code_actions).actions =~= Seq::empty());
        p
    }

    /// The panels as the render view shows them.
    pub fn to_view(&self) -> (v: render::LspPanelsView<'_>)
        ensures
            lsp_panels_view_model(v) == lsp_panels_model(*self),
    {
        render::LspPanelsView {
            session_id: self.session_id.as_str(),
            document_id: self.document_id.as_str(),
            document_version: self.document_version.as_str(),
            state_id: self.state_id.as_str(),
            goal_id: self.goal_id.as_str(),
            hover_name: self.hover_name.as_str(),
            hover: self.hover.to_view(),
            completions: self.completions.to_view(),
            code_actions: self.code_actions.to_view(),
        }
    }
}

impl WebLspHoverResult {
    /// The hover panel before a request.
    pub fn idle() -> (h: Self)
        ensures
            hover_model(h) == hover_message_model("not requested"@),
    {
        Self::message("not requested")
    }

    /// A hover panel that shows only `message` as its status.
    pub fn message(message: &str) -> (h: Self)
        ensures
            hover_model(h) == hover_message_model(message@),
    {
        WebLspHoverResult {
            status: owned(message),
            contents: String::new(),
            theorem_name: String::new(),
            module: String::new(),
            kind: String::new(),
            statement: String::new(),
            attributes: String::new(),
            axioms: String::new(),
            export_hash: String::new(),
            certificate_hash: String::new(),
            decl_interface_hash: String::new(),
        }
    }

    /// The hover panel as the render view shows it.
    pub fn to_view(&self) -> (v: render::LspHoverResultView<'_>)
        ensures
            hover_view_model(v) == hover_model(*self),
    {
        render::LspHoverResultView {
            status: self.status.as_str(),
            contents: self.contents.as_str(),
            theorem_name: self.theorem_name.as_str(),
            module: self.module.as_str(),
            kind: self.kind.as_str(),
            statement: self.statement.as_str(),
            attributes: self.attributes.as_str(),
            axioms: self.axioms.as_str(),
            export_hash: self.export_hash.as_str(),
            certificate_hash: self.certificate_hash.as_str(),
            decl_interface_hash: self.decl_interface_hash.as_str(),
        }
    }
}

impl WebLspCompletionResult {
    /// The completion panel before a request.
    pub fn idle() -> (c: Self)
        ensures
            completions_model(c) == (CompletionsModel {
                status: "not requested"@,
                error: Seq::empty(),
                items: Seq::empty(),
            }),
    {
        let c = WebLspCompletionResult {
            status: owned("not requested"),
            error: String::new(),
            items: Vec::new(),
        };
        assert(completions_model(c).items =~= Seq::empty());
        c
    }

    /// A completion panel that shows only `message` as its status.
    pub fn message(message: &str) -> (c: Self)
        ensures
            completions_model(c) == (CompletionsModel {
                status: message@,
                error: Seq::empty(),
                items: Seq::empty(),
            }),
    {
        let c = WebLspCompletionResult {
            status: owned(message),
            error: String::new(),
            items: Vec::new(),
        };
        assert(completions_model(c).items =~= Seq::empty());
        c
    }

    /// The completion panel as the render view shows it.
    pub fn to_view(&self) -> (v: render::LspCompletionResultView<'_>)
        ensures
            completions_view_model(v) == completions_model(*self),
    {
        let mut items: Vec<render::LspCompletionItemView<'_>> = Vec::new();
        let mut i: usize = 0;
        while i < self.items.len()
            invariant
                i <= self.items.len(),
                items@.len() == i,
                forall|k: int|
                    0 <= k < i ==> ((#[trigger] items@[k]).label@, items@[k].kind@,
                    items@[k].detail@, items@[k].insert_text@, items@[k].command@)
                        == completion_item_model(self.items@[k]),
            decreases self.items.len() - i,
        {
            items.push(self.items[i].to_view());
            i += 1;
        }
        let v = render::LspCompletionResultView {
            status: self.status.as_str(),
            error: self.error.as_str(),
            items,
        };
        assert(completions_view_model(v).items =~= completions_model(*self).items);
        v
    }
}

impl WebLspCompletionItem {
    /// The item as the render view shows it.
    pub fn to_view(&self) -> (v: render::LspCompletionItemView<'_>)
        ensures
            (v.label@, v.kind@, v.detail@, v.insert_text@, v.command@) == completion_item_model(
                *self,
            ),
    {
        render::LspCompletionItemView {
            label: self.label.as_str(),
            kind: self.kind.as_str(),
            detail: self.detail.as_str(),
            insert_text: self.insert_text.as_str(),
            command: self.command.as_str(),
        }
    }
}

impl WebLspCodeActionResult {
    /// The code action panel before a request.
    pub fn idle() -> (c: Self)
        ensures
            code_actions_model(c) == (CodeActionsModel {
                status: "not requested"@,
                error: Seq::empty(),
                actions: Seq::empty(),
            }),
    {
        let c = WebLspCodeActionResult {
            status: owned("not requested"),
            error: String::new(),
            actions: Vec::new(),
        };
        assert(code_actions_model(c).actions =~= Seq::empty());
        c
    }

    /// A code action panel that shows only `message` as its status.
    pub fn message(message: &str) -> (c: Self)
        ensures
            code_actions_model(c) == (CodeActionsModel {
                status: message@,
                error: Seq::empty(),
                actions: Seq::empty(),
            }),
    {
        let c = WebLspCodeActionResult {
            status: owned(message),
            error: String::new(),
            actions: Vec::new(),
        };
        assert(code_actions_model(c).actions =~= Seq::empty());
        c
    }

    /// The code action panel as the render view shows it.
    pub fn to_view(&self) -> (v: render::LspCodeActionResultView<'_>)
        ensures
            code_actions_view_model(v) == code_actions_model(*self),
    {
        let mut actions: Vec<render::LspCodeActionView<'_>> = Vec::new();
        let mut i: usize = 0;
        while i < self.actions.len()
            invariant
                i <= self.actions.len(),
                actions@.len() == i,
                forall|k: int|
                    0 <= k < i ==> ((#[trigger] actions@[k]).title@, actions@[k].kind@,
                    actions@[k].tactic@, actions@[k].command@,
                    actions@[k].diagnostic_count as nat) == code_action_model(self.actions@[k]),
            decreases self.actions.len() - i,
        {
            actions.push(self.actions[i].to_view());
            i += 1;
        }
        let v = render::LspCodeActionResultView {
            status: self.status.as_str(),
            error: self.error.as_str(),
            actions,
        };
        assert(code_actions_view_model(v).actions =~= code_actions_model(*self).actions);
        v
    }
}

impl WebLspCodeAction {
    /// The action as the render view shows it.
    pub fn to_view(&self) -> (v: render::LspCodeActionView<'_>)
        ensures
            (v.title@, v.kind@, v.tactic@, v.command@, v.diagnostic_count as nat)
                == code_action_model(*self),
    {
        render::LspCodeActionView {
            title: self.title.as_str(),
            kind: self.kind.as_str(),
            tactic: self.tactic.as_str(),
            command: self.command.as_str(),
            diagnostic_count: self.diagnostic_count,
        }
    }
}

impl WebVerify {
    /// The verify panel before verification.
    pub fn pending() -> (v: Self)
        ensures
            verify_model(v) == pending_verify_model(),
    {
        let v = WebVerify {
            status: owned("not run"),
            detail: owned("Verify after all goals are closed."),
            root_decl_certificate_hash: String::new(),
            certificate_hash: String::new(),
            imports: Vec::new(),
        };
        assert(imports_model(v.imports@) =~= Seq::empty());
        v
    }

    /// The verify panel as the render view shows it.
    pub fn to_view(&self) -> (v: render::VerifyView<'_>)
        ensures
            verify_view_model(v) == verify_model(*self),
    {
        let mut imports: Vec<render::VerifyImportView<'_>> = Vec::new();
        let mut i: usize = 0;
        while i < self.imports.len()
            invariant
                i <= self.imports.len(),
                imports@.len() == i,
                forall|k: int|
                    0 <= k < i ==> ((#[trigger] imports@[k]).module@, imports@[k].export_hash@,
                    imports@[k].certificate_hash@, imports@[k].axiom_count as nat) == (
                    self.imports@[k].module@,
                    self.imports@[k].export_hash@,
                    self.imports@[k].certificate_hash@,
                    self.imports@[k].axiom_count as nat,
                ),
            decreases self.imports.len() - i,
        {
            imports.push(self.imports[i].to_view());
            i += 1;
        }
        let v = render::VerifyView {
            status: self.status.as_str(),
            detail: self.detail.as_str(),
            root_decl_certificate_hash: self.root_decl_certificate_hash.as_str(),
            certificate_hash: self.certificate_hash.as_str(),
            imports,
        };
        assert(verify_view_model(v).imports =~= imports_model(self.imports@));
        v
    }
}

impl WebImportSummary {
    /// The import as the render view shows it.
    pub fn to_view(&self) -> (v: render::VerifyImportView<'_>)
        ensures
            v.module@ == self.module@,
            v.export_hash@ == self.export_hash@,
            v.certificate_hash@ == self.certificate_hash@,
            v.axiom_count == self.axiom_count,
    {
        render::VerifyImportView {
            module: self.module.as_str(),
            export_hash: self.export_hash.as_str(),
            certificate_hash: self.certificate_hash.as_str(),
            axiom_count: self.axiom_count,
        }
    }
}

} // verus!
