use npa_web::render::{
    template_bundle, template_source_fits, RenderError, Renderer, TemplateName, MAX_NESTING_OPENERS,
};
use npa_web::std_demo::{check_fixture_module, fixture_verification_error, standard_demo_imports};
use npa_web::style::{generate_app_css, template_classes};

#[test]
fn render_error_message_is_short_and_sanitized() {
    let renderer = Renderer::from_source(r#"{{define "page"}}{{.Missing}}{{end}}"#)
        .ok()
        .expect("test template should parse");

    let error: RenderError = renderer
        .render(TemplateName::Page, "{}")
        .expect_err("missing key should be converted");

    assert_eq!(error.user_message(), "template render failed");
    assert_eq!(error.to_message(), "page: template render failed");
    let formatted = error.to_message();
    assert!(!formatted.contains('/'));
    assert!(!formatted.contains("panicked"));
    assert!(!formatted.contains("Missing"));
}

#[test]
fn parse_error_message_is_short_and_sanitized() {
    let error = match Renderer::from_source(r#"{{define "page"}}{{if .Open}}"#) {
        Ok(_) => panic!("bad template should fail during parsing"),
        Err(error) => error,
    };

    assert_eq!(error.user_message(), "template parse failed");
    let formatted = error.to_message();
    assert!(!formatted.contains('/'));
    assert!(!formatted.contains("panicked"));
    assert!(!formatted.contains("Open"));
    assert_eq!(error.template(), "templates");
}

#[test]
fn renderer_escapes_rendered_values() {
    let renderer = Renderer::from_source(r#"{{define "messages"}}<p>{{.Text}}</p>{{end}}"#)
        .ok()
        .expect("template should parse");
    let mut data = serde_json::Map::new();
    data.insert("Text".to_owned(), serde_json::Value::String("<b>bad</b> & retry".to_owned()));
    let data = serde_json::Value::Object(data).to_string();
    let html = renderer
        .render(TemplateName::Messages, &data)
        .ok()
        .expect("template should render");
    assert!(html.contains("&lt;b&gt;bad&lt;/b&gt; &amp; retry"));
    assert!(!html.contains("<b>bad</b>"));
}

#[test]
fn render_reports_data_that_is_not_json_as_an_execution_failure() {
    let renderer = Renderer::from_source(r#"{{define "verify"}}<p>{{.Status}}</p>{{end}}"#)
        .ok()
        .expect("template should parse");
    let error = renderer
        .render(TemplateName::Verify, "{not json")
        .expect_err("data that is not JSON should fail");
    assert_eq!(error.to_message(), "verify: template render failed");
    let html = renderer
        .render(TemplateName::Verify, r#"{"Status":"ok"}"#)
        .ok()
        .expect("JSON data should render");
    assert_eq!(html, "<p>ok</p>");
}

#[test]
fn render_of_an_undefined_template_fails() {
    let renderer = Renderer::from_source(r#"{{define "goal"}}{{.Label}}{{end}}"#)
        .ok()
        .expect("template should parse");
    let error = renderer
        .render(TemplateName::Workspace, "{}")
        .expect_err("an undefined template should fail");
    assert_eq!(error.template(), "workspace");
    assert_eq!(error.user_message(), "template render failed");
}

/// `depth` nested `if` blocks around `x` in the page template.
fn nested_ifs(depth: usize, closed: bool) -> String {
    let mut source = String::from(r#"{{define "page"}}"#);
    for _ in 0..depth {
        source.push_str("{{if true}}");
    }
    if closed {
        source.push('x');
        for _ in 0..depth {
            source.push_str("{{end}}");
        }
        source.push_str("{{end}}");
    }
    source
}

/// `depth` nested parentheses around `1` in the page template.
fn nested_parens(depth: usize) -> String {
    let mut source = String::from(r#"{{define "page"}}{{"#);
    for _ in 0..depth {
        source.push('(');
    }
    source.push('1');
    for _ in 0..depth {
        source.push(')');
    }
    source.push_str("}}{{end}}");
    source
}

#[test]
fn renderer_handles_the_deepest_nesting_it_takes() {
    assert_eq!(MAX_NESTING_OPENERS, 128);

    let blocks = nested_ifs(31, true);
    assert_eq!(blocks.chars().filter(|c| *c == '{').count(), 128);
    assert!(template_source_fits(&blocks));
    let renderer = Renderer::from_source(&blocks).ok().expect("nested blocks should parse");
    assert_eq!(renderer.render(TemplateName::Page, "{}").ok().expect("should render"), "x");

    let unclosed = nested_ifs(63, false);
    assert!(template_source_fits(&unclosed));
    let error = match Renderer::from_source(&unclosed) {
        Ok(_) => panic!("unclosed blocks should not parse"),
        Err(error) => error,
    };
    assert_eq!(error.to_message(), "templates: template parse failed");

    let parens = nested_parens(122);
    assert!(template_source_fits(&parens));
    let renderer = Renderer::from_source(&parens).ok().expect("nested parentheses should parse");
    assert_eq!(renderer.render(TemplateName::Page, "{}").ok().expect("should render"), "1");

    let nested_data = format!("{}{}", "[".repeat(120), "]".repeat(120));
    let renderer = Renderer::from_source(r#"{{define "page"}}{{len .}}{{end}}"#)
        .ok()
        .expect("template should parse");
    assert_eq!(
        renderer.render(TemplateName::Page, &nested_data).ok().expect("deep data should render"),
        "1"
    );
}

#[test]
fn template_source_fits_bounds_nesting_and_refuses_template_calls() {
    assert!(template_source_fits(""));
    assert!(template_source_fits(r#"{{define "page"}}{{.Title}}{{end}}"#));
    assert!(!template_source_fits(&nested_ifs(32, true)));
    assert!(!template_source_fits(&nested_parens(123)));
    assert!(template_source_fits(&"(".repeat(128)));
    assert!(!template_source_fits(&"{".repeat(129)));
    assert!(!template_source_fits(r#"{{define "page"}}{{template "page" .}}{{end}}"#));
    assert!(!template_source_fits(r#"{{block "page" .}}x{{end}}"#));
    assert!(!template_source_fits("<template>"));
}

#[test]
fn template_names_are_fixed() {
    assert_eq!(TemplateName::Page.as_str(), "page");
    assert_eq!(TemplateName::LspCodeActionResult.as_str(), "lsp_code_action_result");
    assert_eq!(TemplateName::PackageFixtureResult.as_str(), "package_fixture_result");
    assert_eq!(TemplateName::Verify.as_str(), "verify");
}

#[test]
fn template_bundle_joins_sources_with_newlines() {
    let sources = vec!["a".to_owned(), "b".to_owned(), "c".to_owned()];
    assert_eq!(template_bundle(&sources), "a\nb\nc");
    assert_eq!(template_bundle(&Vec::new()), "");
    assert!(Renderer::new(&sources).is_ok());
}

/// Markup that uses the utility classes the page templates use.
fn sample_template_sources() -> Vec<String> {
    vec![
        r#"<main class="grid lg:grid-cols-2"><section class="lg:grid-cols-3 break-all"></section></main>"#
            .to_owned(),
        r#"<pre class="font-mono whitespace-pre-wrap"></pre><span class="sr-only"></span>"#.to_owned(),
    ]
}

#[test]
fn extracts_template_classes_and_safelist() {
    let classes = template_classes(&sample_template_sources());

    for expected in [
        "npa-theme",
        "grid",
        "lg:grid-cols-2",
        "lg:grid-cols-3",
        "grid-cols-[8rem_1fr]",
        "grid-cols-[10rem_1fr_6rem]",
        "whitespace-pre-wrap",
        "break-all",
        "sr-only",
    ] {
        assert!(
            classes.iter().any(|class| class == expected),
            "missing class {expected}"
        );
    }
}

#[test]
fn template_classes_are_sorted_and_unique() {
    let sources = sample_template_sources();
    let classes = template_classes(&sources);
    let mut sorted = classes.clone();
    sorted.sort();
    sorted.dedup();
    assert_eq!(sorted, classes);
    assert!(!classes.iter().any(|class| class == &sources[0]));
    assert_eq!(
        template_classes(&Vec::new()),
        vec!["grid-cols-[10rem_1fr_6rem]", "grid-cols-[8rem_1fr]", "npa-theme"]
    );
}

#[test]
fn generates_css_for_first_screen_and_partials() {
    let css = generate_app_css(&sample_template_sources());

    for expected in [
        ".npa-theme",
        "--spacing: 0.25rem",
        ".grid",
        "display: grid",
        ".lg\\:grid-cols-2",
        "@media (width >= 64rem)",
        ".lg\\:grid-cols-3",
        "grid-template-columns: repeat(3, minmax(0, 1fr))",
        ".grid-cols-\\[8rem_1fr\\]",
        "grid-template-columns: 8rem 1fr",
        ".grid-cols-\\[10rem_1fr_6rem\\]",
        "grid-template-columns: 10rem 1fr 6rem",
        ".font-mono",
        "font-family: var(--font-mono)",
        ".whitespace-pre-wrap",
        ".break-all",
    ] {
        assert!(css.contains(expected), "missing CSS fragment {expected}");
    }
}

#[test]
fn standard_demo_fixture_checks() {
    assert_eq!(standard_demo_imports(), vec!["Std.Nat.Basic", "Std.Logic.Eq"]);
    assert!(check_fixture_module("Std.Nat.Basic", "Std.Nat.Basic", true).is_ok());
    let error = fixture_verification_error("Std.Logic.Eq", "BadHash");
    assert_eq!(
        error.user_message(),
        "standard demo fixture Std.Logic.Eq failed certificate verification: BadHash"
    );
    assert_eq!(error.to_message(), error.user_message());
}
