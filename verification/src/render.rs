//! Server-side HTML rendering: the named templates, the view structures
//! they are executed with, and the short, sanitized render errors.
//!
//! The templates themselves are parsed and executed by `go_html_template`,
//! which escapes every value by its HTML context. Its parser and its
//! executor recurse once per nested block action and once per nested
//! parenthesis, and a template that calls itself runs up to the crate's
//! own limit of 128 nested calls, each with the nesting of its body. So
//! the sources this renderer takes are bounded: few enough characters
//! that open a level of nesting, and no template calls at all.
use go_html_template::{Template, TemplateError};
use vstd::prelude::*;

use crate::text::{chars_of, owned, push_str, string_views};

verus! {

/// The `go_html_template` template set (an opaque outside type).
#[verifier::external_type_specification]
#[verifier::external_body]
pub struct ExTemplate(Template);

/// The `go_html_template` error type (an opaque outside type).
#[verifier::external_type_specification]
#[verifier::external_body]
pub struct ExTemplateError(TemplateError);

// ---------------------------------------------------------------------
// Which sources the renderer takes
// ---------------------------------------------------------------------

/// Whether `c` can open a level of nesting in a template source: a brace
/// of an action delimiter or an opening parenthesis of an expression.
pub open spec fn opens_nesting(c: char) -> bool {
    c == '{' || c == '('
}

/// The number of characters of `s` that can open a level of nesting.
pub open spec fn nesting_openers(s: Seq<char>) -> nat
    decreases s.len(),
{
    if s.len() == 0 {
        0
    } else {
        nesting_openers(s.drop_last()) + if opens_nesting(s.last()) {
            1nat
        } else {
            0nat
        }
    }
}

/// The most characters that open a level of nesting a template source may
/// hold. On a 2 MiB stack, as test and server threads have, the parser and
/// the executor of `go_html_template` were seen to handle 128 nested `if`
/// blocks and 256 nested parentheses, and to run out of stack at 256
/// nested blocks and at 512 parentheses. Within this bound a source nests
/// at most 64 blocks or 128 parentheses deep, half of what was seen to
/// work.
pub const MAX_NESTING_OPENERS: usize = 128;

/// Whether `pat` occurs in `s` at index `i`.
pub open spec fn occurs_at(s: Seq<char>, pat: Seq<char>, i: int) -> bool {
    0 <= i && i + pat.len() <= s.len() && s.subrange(i, i + pat.len()) == pat
}

/// Whether `pat` occurs anywhere in `s`.
pub open spec fn occurs_in(s: Seq<char>, pat: Seq<char>) -> bool {
    exists|i: int| occurs_at(s, pat, i)
}

/// Whether the renderer takes `source`: it holds at most
/// `MAX_NESTING_OPENERS` characters that open a level of nesting, and
/// neither of the words that introduce a template call (`template`,
/// `block`), so no template can call itself.
pub open spec fn source_fits(source: Seq<char>) -> bool {
    &&& nesting_openers(source) <= MAX_NESTING_OPENERS
    &&& !occurs_in(source, "template"@)
    &&& !occurs_in(source, "block"@)
}

/// The number of characters of `s` that open a level of nesting.
fn count_nesting_openers(s: &Vec<char>) -> (n: usize)
    ensures
        n == nesting_openers(s@),
{
    let mut n: usize = 0;
    let mut i: usize = 0;
    while i < s.len()
        invariant
            i <= s.len(),
            n <= i,
            n == nesting_openers(s@.take(i as int)),
        decreases s.len() - i,
    {
        assert(s@.take(i + 1).drop_last() =~= s@.take(i as int));
        assert(s@.take(i + 1).last() == s@[i as int]);
        if s[i] == '{' || s[i] == '(' {
            n += 1;
        }
        i += 1;
    }
    assert(s@.take(i as int) =~= s@);
    n
}

/// Whether `pat` occurs in `s` at index `i`.
fn occurs_at_index(s: &Vec<char>, pat: &Vec<char>, i: usize) -> (b: bool)
    requires
        i <= s.len(),
    ensures
        b == occurs_at(s@, pat@, i as int),
{
    if pat.len() > s.len() - i {
        return false;
    }
    let mut j: usize = 0;
    while j < pat.len()
        invariant
            j <= pat.len(),
            i + pat.len() <= s.len(),
            forall|k: int| 0 <= k < j ==> s@[i + k] == pat@[k],
        decreases pat.len() - j,
    {
        if s[i + j] != pat[j] {
            assert(s@.subrange(i as int, i + pat.len())[j as int] != pat@[j as int]);
            return false;
        }
        j += 1;
    }
    assert(s@.subrange(i as int, i + pat.len()) =~= pat@);
    true
}

/// Whether `pat` occurs anywhere in `s`.
fn occurs_anywhere(s: &Vec<char>, pat: &Vec<char>) -> (b: bool)
    ensures
        b == occurs_in(s@, pat@),
{
    let mut i: usize = 0;
    while i < s.len()
        invariant
            i <= s.len(),
            forall|k: int| 0 <= k < i ==> !occurs_at(s@, pat@, k),
        decreases s.len() - i,
    {
        if occurs_at_index(s, pat, i) {
            return true;
        }
        i += 1;
    }
    if occurs_at_index(s, pat, i) {
        return true;
    }
    assert forall|k: int| !occurs_at(s@, pat@, k) by {
        if 0 <= k && k < i {
        }
    }
    false
}

/// Whether the renderer takes `source` (see `source_fits`).
pub fn template_source_fits(source: &str) -> (fits: bool)
    ensures
        fits == source_fits(source@),
{
    let chars = chars_of(source);
    if count_nesting_openers(&chars) > MAX_NESTING_OPENERS {
        return false;
    }
    let call = chars_of("template");
    let block = chars_of("block");
    !occurs_anywhere(&chars, &call) && !occurs_anywhere(&chars, &block)
}

// ---------------------------------------------------------------------
// go_html_template
// ---------------------------------------------------------------------

/// Whether `go_html_template` parses `source` into the template set that
/// `Template::new(root)` starts: a function of the two texts, since a new
/// set always starts with the same functions and delimiters.
pub uninterp spec fn template_parses(root: Seq<char>, source: Seq<char>) -> bool;

/// What executing the template `name` of the set parsed from `source`
/// under the root `root`, with the option `option` set, gives on the JSON
/// document `data`: the HTML, or `None` where the data is not JSON or
/// execution fails (an undefined template, a missing key, a failing
/// function). A function of the five texts: execution reads only the
/// parsed set, its options and the data.
pub uninterp spec fn template_output(
    root: Seq<char>,
    option: Seq<char>,
    source: Seq<char>,
    name: Seq<char>,
    data: Seq<char>,
) -> Option<Seq<char>>;

/// Calls `Template::new(root)` and `Template::parse(source)` on the new
/// set. The result is `Ok` exactly when `template_parses` holds of the two
/// texts. The parser recurses per nesting level, so the characters of
/// `source` that open one are bounded.
#[verifier::external_body]
fn parse_template(root: &str, source: &str) -> (r: Result<Template, TemplateError>)
    requires
        nesting_openers(source@) <= MAX_NESTING_OPENERS,
    ensures
        r is Ok <==> template_parses(root@, source@),
{
    Template::new(root).parse(source)
}

/// Calls `Template::option`. Its source accepts `missingkey=error` (after
/// trimming, the prefix `missingkey=` followed by `error`), so for that
/// option the result is `Ok`; nothing else is stated. The option is read
/// only when a template executes, not by the parser.
#[verifier::external_body]
fn template_option(template: Template, option: &str) -> (r: Result<Template, TemplateError>)
    ensures
        option@ == "missingkey=error"@ ==> r is Ok,
{
    template.option(option)
}

/// Reads `data` as a JSON document with `serde_json::from_str` and calls
/// `Template::execute_template_to_string` with it on the renderer's set.
/// The result is what `template_output` names for the renderer's root,
/// option and source, `name` and `data`. The executor recurses like the
/// parser, so the renderer's source is bounded by `source_fits`; the
/// `expect` calls on its way guard invariants that the crate establishes
/// just before them (a scope pushed, a single analysis flow).
#[verifier::external_body]
fn execute_template(renderer: &Renderer, name: &str, data: &str) -> (r: Result<
    String,
    TemplateError,
>)
    requires
        source_fits(renderer.source_view()),
    ensures
        r is Ok <==> template_output(
            renderer.root_view(),
            renderer.option_view(),
            renderer.source_view(),
            name@,
            data@,
        ) is Some,
        r matches Ok(html) ==> html@ == template_output(
            renderer.root_view(),
            renderer.option_view(),
            renderer.source_view(),
            name@,
            data@,
        )->0,
{
    let data: serde_json::Value = serde_json::from_str(data)?;
    renderer.template.execute_template_to_string(name, &data)
}

/// The templates that the renderer executes, one per page fragment.
#[derive(Debug, Clone, Copy, PartialEq, Eq, Structural)]
pub enum TemplateName {
    Page,
    LspPanels,
    LspHoverResult,
    LspCompletionResult,
    LspCodeActionResult,
    PackageFixture,
    PackageFixtureResult,
    SourceForm,
    Workspace,
    Goal,
    Messages,
    Verify,
}

/// The name under which each template is defined.
pub open spec fn template_name_text(name: TemplateName) -> Seq<char> {
    match name {
        TemplateName::Page => "page"@,
        TemplateName::LspPanels => "lsp_panels"@,
        TemplateName::LspHoverResult => "lsp_hover_result"@,
        TemplateName::LspCompletionResult => "lsp_completion_result"@,
        TemplateName::LspCodeActionResult => "lsp_code_action_result"@,
        TemplateName::PackageFixture => "package_fixture"@,
        TemplateName::PackageFixtureResult => "package_fixture_result"@,
        TemplateName::SourceForm => "source_form"@,
        TemplateName::Workspace => "workspace"@,
        TemplateName::Goal => "goal"@,
        TemplateName::Messages => "messages"@,
        TemplateName::Verify => "verify"@,
    }
}

impl TemplateName {
    /// The name under which the template is defined.
    pub fn as_str(self) -> (s: &'static str)
        ensures
            s@ == template_name_text(self),
    {
        match self {
            TemplateName::Page => "page",
            TemplateName::LspPanels => "lsp_panels",
            TemplateName::LspHoverResult => "lsp_hover_result",
            TemplateName::LspCompletionResult => "lsp_completion_result",
            TemplateName::LspCodeActionResult => "lsp_code_action_result",
            TemplateName::PackageFixture => "package_fixture",
            TemplateName::PackageFixtureResult => "package_fixture_result",
            TemplateName::SourceForm => "source_form",
            TemplateName::Workspace => "workspace",
            TemplateName::Goal => "goal",
            TemplateName::Messages => "messages",
            TemplateName::Verify => "verify",
        }
    }
}

/// When a render error happened.
#[derive(Debug, Clone, Copy, PartialEq, Eq, Structural)]
pub enum RenderErrorPhase {
    Parse,
    Execute,
}

/// A render failure, reduced to the template it concerns and the phase it
/// happened in; the outside error's text is never kept, so no source text,
/// path or panic message reaches the user.
#[derive(Debug, Clone, PartialEq, Eq)]
pub struct RenderError {
    template: &'static str,
    phase: RenderErrorPhase,
}

/// The message shown for a failure in `phase`.
pub open spec fn render_phase_message(phase: RenderErrorPhase) -> Seq<char> {
    match phase {
        RenderErrorPhase::Parse => "template parse failed"@,
        RenderErrorPhase::Execute => "template render failed"@,
    }
}

impl RenderError {
    /// The template the error concerns.
    pub closed spec fn template_view(&self) -> Seq<char> {
        self.template@
    }

    /// The phase the error happened in.
    pub closed spec fn phase_view(&self) -> RenderErrorPhase {
        self.phase
    }

    /// A parse failure of `template`.
    fn parse(template: &'static str, _source: TemplateError) -> (e: Self)
        ensures
            e.template_view() == template@,
            e.phase_view() == RenderErrorPhase::Parse,
    {
        RenderError { template, phase: RenderErrorPhase::Parse }
    }

    /// An execution failure of `template`.
    fn execute(template: &'static str, _source: TemplateError) -> (e: Self)
        ensures
            e.template_view() == template@,
            e.phase_view() == RenderErrorPhase::Execute,
    {
        RenderError { template, phase: RenderErrorPhase::Execute }
    }

    /// The short message shown to the user.
    pub fn user_message(&self) -> (s: &'static str)
        ensures
            s@ == render_phase_message(self.phase_view()),
    {
        match self.phase {
            RenderErrorPhase::Parse => "template parse failed",
            RenderErrorPhase::Execute => "template render failed",
        }
    }

    /// The template the error concerns.
    pub fn template(&self) -> (s: &'static str)
        ensures
            s@ == self.template_view(),
    {
        self.template
    }

    /// The error as displayed: the template, a colon and the message.
    pub fn to_message(&self) -> (s: String)
        ensures
            s@ == self.template_view() + ": "@ + render_phase_message(self.phase_view()),
    {
        let mut s = String::new();
        push_str(&mut s, self.template);
        push_str(&mut s, ": ");
        push_str(&mut s, self.user_message());
        s
    }
}

/// The template sources joined into one bundle, a newline between each two.
pub open spec fn bundle_text(sources: Seq<Seq<char>>) -> Seq<char> {
    crate::text::join(sources, "\n"@)
}

/// The template sources joined into one bundle, a newline between each two.
pub fn template_bundle(sources: &Vec<String>) -> (bundle: String)
    ensures
        bundle@ == bundle_text(string_views(sources@)),
{
    crate::text::join_strings(sources, "\n")
}

/// The parsed template set, with the texts it was made from. Only
/// `from_source` builds one, so `template` is always the set that
/// `Template::new(root)` parsed from `source`, with `option` set.
pub struct Renderer {
    template: Template,
    root: &'static str,
    option: &'static str,
    source: String,
}

/// The option every renderer is made with: a key that the data lacks is
/// an execution error, not an empty value.
pub open spec fn missing_key_option() -> Seq<char> {
    "missingkey=error"@
}

impl Renderer {
    /// Only sources the renderer takes are ever parsed.
    #[verifier::type_invariant]
    spec fn source_taken(self) -> bool {
        source_fits(self.source@)
    }

    /// The name of the root template of the set.
    pub closed spec fn root_view(&self) -> Seq<char> {
        self.root@
    }

    /// The option the set was made with.
    pub closed spec fn option_view(&self) -> Seq<char> {
        self.option@
    }

    /// The source the set was parsed from.
    pub closed spec fn source_view(&self) -> Seq<char> {
        self.source@
    }

    /// What executing the template named `name` on the JSON document
    /// `data` gives.
    pub open spec fn output(&self, name: Seq<char>, data: Seq<char>) -> Option<Seq<char>> {
        template_output(self.root_view(), self.option_view(), self.source_view(), name, data)
    }

    /// Parses the bundle of `template_sources` (see `from_source`).
    pub fn new(template_sources: &Vec<String>) -> (r: Result<Self, RenderError>)
        requires
            source_fits(bundle_text(string_views(template_sources@))),
        ensures
            r is Ok <==> template_parses(
                template_name_text(TemplateName::Page),
                bundle_text(string_views(template_sources@)),
            ),
            r matches Ok(renderer) ==> renderer.root_view() == template_name_text(
                TemplateName::Page,
            ) && renderer.option_view() == missing_key_option() && renderer.source_view()
                == bundle_text(string_views(template_sources@)),
            r matches Err(e) ==> e.template_view() == "templates"@ && e.phase_view()
                == RenderErrorPhase::Parse,
    {
        let bundle = template_bundle(template_sources);
        Self::from_source(bundle.as_str())
    }

    /// Parses `source` into a template set rooted at the page template,
    /// with missing keys treated as errors. It succeeds exactly when
    /// `go_html_template` parses the source; a failure is always reported
    /// as a parse failure of `templates`. The option is set once the
    /// source has parsed; the parser does not read it.
    pub fn from_source(source: &str) -> (r: Result<Self, RenderError>)
        requires
            source_fits(source@),
        ensures
            r is Ok <==> template_parses(template_name_text(TemplateName::Page), source@),
            r matches Ok(renderer) ==> renderer.root_view() == template_name_text(
                TemplateName::Page,
            ) && renderer.option_view() == missing_key_option() && renderer.source_view()
                == source@,
            r matches Err(e) ==> e.template_view() == "templates"@ && e.phase_view()
                == RenderErrorPhase::Parse,
    {
        let root = TemplateName::Page.as_str();
        let option = "missingkey=error";
        let template = match parse_template(root, source) {
            Ok(template) => template,
            Err(error) => {
                return Err(RenderError::parse("templates", error));
            },
        };
        match template_option(template, option) {
            Ok(template) => Ok(Renderer { template, root, option, source: owned(source) }),
            Err(error) => Err(RenderError::parse("templates", error)),
        }
    }

    /// Executes the template `name` on the JSON document `data`. It
    /// succeeds exactly when `go_html_template` does, with the HTML it
    /// gives; a failure is always reported as an execution failure of the
    /// template `name`.
    pub fn render(&self, name: TemplateName, data: &str) -> (r: Result<String, RenderError>)
        ensures
            r is Ok <==> self.output(template_name_text(name), data@) is Some,
            r matches Ok(html) ==> html@ == self.output(template_name_text(name), data@)->0,
            r matches Err(e) ==> e.template_view() == template_name_text(name) && e.phase_view()
                == RenderErrorPhase::Execute,
    {
        proof {
            use_type_invariant(self);
        }
        let template_name = name.as_str();
        match execute_template(self, template_name, data) {
            Ok(html) => Ok(html),
            Err(error) => Err(RenderError::execute(template_name, error)),
        }
    }
}

/// The whole page.
#[derive(Debug)]
pub struct PageView<'a> {
    pub title: &'a str,
    pub source_form: SourceFormView<'a>,
    pub workspace: WorkspaceView<'a>,
    pub package_fixture: PackageFixtureView<'a>,
}

/// The package fixture panel.
#[derive(Debug)]
pub struct PackageFixtureView<'a> {
    pub options: Vec<PackageFixtureOptionView<'a>>,
    pub result: PackageFixtureResultView<'a>,
}

/// One entry of the package fixture selector.
#[derive(Debug)]
pub struct PackageFixtureOptionView<'a> {
    pub value: &'a str,
    pub label: &'a str,
    pub selected: bool,
}

/// The outcome of a package fixture run.
#[derive(Debug)]
pub struct PackageFixtureResultView<'a> {
    pub status: &'a str,
    pub fixture_label: &'a str,
    pub root: &'a str,
    pub steps: Vec<PackageFixtureStepView<'a>>,
    pub diagnostics: Vec<PackageFixtureDiagnosticView<'a>>,
}

/// One package command of a fixture run.
#[derive(Debug)]
pub struct PackageFixtureStepView<'a> {
    pub command: &'a str,
    pub status: &'a str,
    pub diagnostic_count: usize,
}

/// One package command diagnostic.
#[derive(Debug)]
pub struct PackageFixtureDiagnosticView<'a> {
    pub severity: &'a str,
    pub command: &'a str,
    pub kind: &'a str,
    pub reason: &'a str,
    pub detail: &'a str,
}

/// The source form.
#[derive(Debug)]
pub struct SourceFormView<'a> {
    pub demos: Vec<DemoOptionView<'a>>,
    pub source: &'a str,
    pub module_name: &'a str,
    pub theorem_name: &'a str,
}

/// One entry of the demo selector.
#[derive(Debug)]
pub struct DemoOptionView<'a> {
    pub value: &'a str,
    pub label: &'a str,
    pub selected: bool,
}

/// The proof workspace.
#[derive(Debug)]
pub struct WorkspaceView<'a> {
    pub session_id: &'a str,
    pub document_id: &'a str,
    pub document_version: &'a str,
    pub state_id: &'a str,
    pub goal_id: &'a str,
    pub tactic_input: &'a str,
    pub goal: GoalView<'a>,
    pub messages: MessagesView<'a>,
    pub verify: VerifyView<'a>,
    pub lsp: LspPanelsView<'a>,
}

/// The LSP payload panels.
#[derive(Debug)]
pub struct LspPanelsView<'a> {
    pub session_id: &'a str,
    pub document_id: &'a str,
    pub document_version: &'a str,
    pub state_id: &'a str,
    pub goal_id: &'a str,
    pub hover_name: &'a str,
    pub hover: LspHoverResultView<'a>,
    pub completions: LspCompletionResultView<'a>,
    pub code_actions: LspCodeActionResultView<'a>,
}

/// The hover panel.
#[derive(Debug)]
pub struct LspHoverResultView<'a> {
    pub status: &'a str,
    pub contents: &'a str,
    pub theorem_name: &'a str,
    pub module: &'a str,
    pub kind: &'a str,
    pub statement: &'a str,
    pub attributes: &'a str,
    pub axioms: &'a str,
    pub export_hash: &'a str,
    pub certificate_hash: &'a str,
    pub decl_interface_hash: &'a str,
}

/// The completion panel.
#[derive(Debug)]
pub struct LspCompletionResultView<'a> {
    pub status: &'a str,
    pub error: &'a str,
    pub items: Vec<LspCompletionItemView<'a>>,
}

/// One completion item.
#[derive(Debug)]
pub struct LspCompletionItemView<'a> {
    pub label: &'a str,
    pub kind: &'a str,
    pub detail: &'a str,
    pub insert_text: &'a str,
    pub command: &'a str,
}

/// The code action panel.
#[derive(Debug)]
pub struct LspCodeActionResultView<'a> {
    pub status: &'a str,
    pub error: &'a str,
    pub actions: Vec<LspCodeActionView<'a>>,
}

/// One code action.
#[derive(Debug)]
pub struct LspCodeActionView<'a> {
    pub title: &'a str,
    pub kind: &'a str,
    pub tactic: &'a str,
    pub command: &'a str,
    pub diagnostic_count: usize,
}

/// The selected goal.
#[derive(Debug)]
pub struct GoalView<'a> {
    pub has_goal: bool,
    pub label: &'a str,
    pub context: Vec<BindingView<'a>>,
    pub target: &'a str,
}

/// One hypothesis of a goal's context.
#[derive(Debug)]
pub struct BindingView<'a> {
    pub name: &'a str,
    pub ty: &'a str,
}

/// The message list.
#[derive(Debug)]
pub struct MessagesView<'a> {
    pub items: Vec<MessageView<'a>>,
}

/// One message.
#[derive(Debug)]
pub struct MessageView<'a> {
    pub severity: &'a str,
    pub text: &'a str,
}

/// The verify panel.
#[derive(Debug)]
pub struct VerifyView<'a> {
    pub status: &'a str,
    pub detail: &'a str,
    pub root_decl_certificate_hash: &'a str,
    pub certificate_hash: &'a str,
    pub imports: Vec<VerifyImportView<'a>>,
}

/// One verified import.
#[derive(Debug)]
pub struct VerifyImportView<'a> {
    pub module: &'a str,
    pub export_hash: &'a str,
    pub certificate_hash: &'a str,
    pub axiom_count: usize,
}

} // verus!
