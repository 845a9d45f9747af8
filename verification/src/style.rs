//! The application stylesheet: the utility classes that the templates
//! use, plus a fixed safelist, generated into CSS by `ironframe` with one
//! theme utility.
use ironframe::generator::{GeneratorConfig, VariantOverrides};
use vstd::prelude::*;

use crate::source_imports::lemma_push_to_set;
use crate::text::{
    chars_of, concat_all, insert_sorted_unique, owned, sorted_unique, string_views, views,
};

verus! {

/// The classes that are always generated, whether the templates name
/// them or not.
pub open spec fn class_safelist() -> Seq<Seq<char>> {
    seq!["npa-theme"@, "grid-cols-[8rem_1fr]"@, "grid-cols-[10rem_1fr_6rem]"@]
}

/// The theme utility class.
pub const THEME_UTILITY_CLASS: &'static str = "npa-theme";

/// The declarations of the theme utility class.
pub const THEME_UTILITY_BODY: &'static str =
    "font-family:system-ui,-apple-system,BlinkMacSystemFont,\"Segoe UI\",sans-serif;color:#111827;background:#ffffff;--spacing:0.25rem;--tw-border-style:solid;--font-mono:ui-monospace,SFMono-Regular,Menlo,Consolas,\"Liberation Mono\",\"Courier New\",monospace;--text-xs:0.75rem;--text-xs--line-height:1rem;--text-sm:0.875rem;--text-sm--line-height:1.25rem;--text-lg:1.125rem;--text-lg--line-height:1.75rem;--font-weight-medium:500;--font-weight-semibold:600";

/// The classes that `ironframe::scanner::extract_classes` finds in a text.
pub uninterp spec fn extracted_classes(text: Seq<char>) -> Seq<Seq<char>>;

/// Calls `ironframe::scanner::extract_classes`, which scans a text for
/// utility class candidates. Its result is a function of the text alone
/// and is named, not stated.
#[verifier::external_body]
fn extract_classes(text: &str) -> (classes: Vec<String>)
    ensures
        string_views(classes@) == extracted_classes(text@),
{
    ironframe::scanner::extract_classes(text)
}

/// The generator settings, as plain values.
pub struct CssGeneratorSettings {
    pub minify: bool,
    pub colors: Vec<(String, Vec<(String, String)>)>,
}

/// The variant overrides, as plain values.
pub struct CssVariantOverrides {
    pub responsive_breakpoints: Vec<(String, String)>,
    pub container_breakpoints: Vec<(String, String)>,
    pub dark_variant_selector: Option<String>,
    pub custom_variant_selectors: Vec<(String, String)>,
    pub custom_utilities: Vec<(String, String)>,
    pub theme_variable_values: Vec<(String, String)>,
    pub global_theme_reset: bool,
    pub disabled_namespaces: Vec<String>,
    pub disabled_color_families: Vec<String>,
    pub declared_theme_vars: Vec<String>,
}

/// What the generator produced.
pub struct GeneratedCss {
    pub css: String,
    pub class_count: usize,
}

/// The fields of generator settings.
pub ghost struct SettingsModel {
    pub minify: bool,
    pub colors: Seq<(Seq<char>, Seq<(Seq<char>, Seq<char>)>)>,
}

/// The fields of variant overrides.
pub ghost struct OverridesModel {
    pub responsive_breakpoints: Seq<(Seq<char>, Seq<char>)>,
    pub container_breakpoints: Seq<(Seq<char>, Seq<char>)>,
    pub dark_variant_selector: Option<Seq<char>>,
    pub custom_variant_selectors: Seq<(Seq<char>, Seq<char>)>,
    pub custom_utilities: Seq<(Seq<char>, Seq<char>)>,
    pub theme_variable_values: Seq<(Seq<char>, Seq<char>)>,
    pub global_theme_reset: bool,
    pub disabled_namespaces: Seq<Seq<char>>,
    pub disabled_color_families: Seq<Seq<char>>,
    pub declared_theme_vars: Seq<Seq<char>>,
}

/// The views of a sequence of string pairs.
pub open spec fn pair_views(v: Seq<(String, String)>) -> Seq<(Seq<char>, Seq<char>)> {
    v.map_values(|p: (String, String)| (p.0@, p.1@))
}

/// The fields of `s`.
pub open spec fn settings_model(s: CssGeneratorSettings) -> SettingsModel {
    SettingsModel {
        minify: s.minify,
        colors: s.colors@.map_values(
            |c: (String, Vec<(String, String)>)| (c.0@, pair_views(c.1@)),
        ),
    }
}

/// The fields of `o`.
pub open spec fn overrides_model(o: CssVariantOverrides) -> OverridesModel {
    OverridesModel {
        responsive_breakpoints: pair_views(o.responsive_breakpoints@),
        container_breakpoints: pair_views(o.container_breakpoints@),
        dark_variant_selector: match o.dark_variant_selector {
            Some(s) => Some(s@),
            None => None,
        },
        custom_variant_selectors: pair_views(o.custom_variant_selectors@),
        custom_utilities: pair_views(o.custom_utilities@),
        theme_variable_values: pair_views(o.theme_variable_values@),
        global_theme_reset: o.global_theme_reset,
        disabled_namespaces: string_views(o.disabled_namespaces@),
        disabled_color_families: string_views(o.disabled_color_families@),
        declared_theme_vars: string_views(o.declared_theme_vars@),
    }
}

/// What `ironframe::generator::generate_with_overrides` produces for the
/// given classes, settings and overrides: the CSS text and the number of
/// classes it generated rules for.
pub uninterp spec fn ironframe_generation(
    classes: Seq<Seq<char>>,
    settings: SettingsModel,
    overrides: OverridesModel,
) -> (Seq<char>, nat);

/// Calls `ironframe::generator::generate_with_overrides` with the settings
/// and overrides converted field by field. Its result is a function of its
/// arguments alone and is named, not stated.
#[verifier::external_body]
fn generate_with_overrides(
    classes: &Vec<String>,
    settings: CssGeneratorSettings,
    overrides: CssVariantOverrides,
) -> (r: GeneratedCss)
    ensures
        (r.css@, r.class_count as nat) == ironframe_generation(
            string_views(classes@),
            settings_model(settings),
            overrides_model(overrides),
        ),
{
    let o = overrides;
    let colors = settings.colors.into_iter().map(|(k, v)| (k, v.into_iter().collect())).collect();
    let config = GeneratorConfig { minify: settings.minify, colors };
    let overrides = VariantOverrides {
        responsive_breakpoints: o.responsive_breakpoints, container_breakpoints: o.container_breakpoints,
        dark_variant_selector: o.dark_variant_selector, custom_variant_selectors: o.custom_variant_selectors,
        custom_utilities: o.custom_utilities, theme_variable_values: o.theme_variable_values,
        global_theme_reset: o.global_theme_reset, disabled_namespaces: o.disabled_namespaces,
        disabled_color_families: o.disabled_color_families, declared_theme_vars: o.declared_theme_vars,
    };
    let r = ironframe::generator::generate_with_overrides(classes, &config, Some(&overrides));
    GeneratedCss { css: r.css, class_count: r.class_count }
}

/// The CSS text of a generation (`ironframe::generator::emit_css` returns
/// the result's CSS as it is).
pub fn emit_css(result: &GeneratedCss) -> (css: String)
    ensures
        css@ == result.css@,
{
    result.css.clone()
}

/// The classes of all `sources`, one source after the other.
pub open spec fn all_extracted_classes(sources: Seq<Seq<char>>) -> Seq<Seq<char>> {
    concat_all(sources.map_values(|s: Seq<char>| extracted_classes(s)))
}

/// The classes to generate: every class that the template sources name,
/// and the safelist, sorted and each named once.
pub fn template_classes(template_sources: &Vec<String>) -> (classes: Vec<String>)
    ensures
        sorted_unique(string_views(classes@)),
        string_views(classes@).to_set() == all_extracted_classes(
            string_views(template_sources@),
        ).to_set().union(class_safelist().to_set()),
{
    let ghost srcs = string_views(template_sources@);
    let ghost f = |s: Seq<char>| extracted_classes(s);
    let mut acc: Vec<Vec<char>> = Vec::new();
    let mut i: usize = 0;
    assert(views(acc@).to_set() =~= concat_all(srcs.map_values(f).take(0)).to_set());
    while i < template_sources.len()
        invariant
            i <= template_sources.len(),
            srcs == string_views(template_sources@),
            f == (|s: Seq<char>| extracted_classes(s)),
            sorted_unique(views(acc@)),
            views(acc@).to_set() == concat_all(srcs.map_values(f).take(i as int)).to_set(),
        decreases template_sources.len() - i,
    {
        let found = extract_classes(template_sources[i].as_str());
        let ghost prev = concat_all(srcs.map_values(f).take(i as int));
        let mut j: usize = 0;
        assert(string_views(found@).take(0) =~= Seq::<Seq<char>>::empty());
        assert(prev + Seq::<Seq<char>>::empty() =~= prev);
        while j < found.len()
            invariant
                j <= found.len(),
                sorted_unique(views(acc@)),
                views(acc@).to_set() == (prev + string_views(found@).take(j as int)).to_set(),
            decreases found.len() - j,
        {
            let c = chars_of(found[j].as_str());
            insert_sorted_unique(&mut acc, c);
            assert(prev + string_views(found@).take(j + 1) =~= (prev + string_views(found@).take(
                j as int,
            )).push(found@[j as int]@));
            proof {
                lemma_push_to_set(prev + string_views(found@).take(j as int), found@[j as int]@);
            }
            j += 1;
        }
        assert(string_views(found@).take(j as int) =~= string_views(found@));
        assert(srcs.map_values(f).take(i + 1).drop_last() =~= srcs.map_values(f).take(i as int));
        assert(srcs.map_values(f).take(i + 1).last() == f(srcs[i as int]));
        i += 1;
    }
    assert(srcs.map_values(f).take(i as int) =~= srcs.map_values(f));
    let ghost base = views(acc@).to_set();
    insert_sorted_unique(&mut acc, chars_of("npa-theme"));
    insert_sorted_unique(&mut acc, chars_of("grid-cols-[8rem_1fr]"));
    insert_sorted_unique(&mut acc, chars_of("grid-cols-[10rem_1fr_6rem]"));
    assert(views(acc@).to_set() =~= base.union(class_safelist().to_set())) by {
        assert forall|x: Seq<char>| class_safelist().to_set().contains(x) <==> (x == "npa-theme"@
            || x == "grid-cols-[8rem_1fr]"@ || x == "grid-cols-[10rem_1fr_6rem]"@) by {
            if class_safelist().contains(x) {
                let k = choose|k: int| 0 <= k < 3 && class_safelist()[k] == x;
            }
            if x == "npa-theme"@ {
                assert(class_safelist()[0] == x);
            }
            if x == "grid-cols-[8rem_1fr]"@ {
                assert(class_safelist()[1] == x);
            }
            if x == "grid-cols-[10rem_1fr_6rem]"@ {
                assert(class_safelist()[2] == x);
            }
        }
    }
    crate::source_imports::strings_of(&acc)
}

/// The settings the stylesheet is generated with: not minified, no extra
/// colors.
pub fn generator_config() -> (s: CssGeneratorSettings)
    ensures
        settings_model(s) == (SettingsModel { minify: false, colors: Seq::empty() }),
{
    let s = CssGeneratorSettings { minify: false, colors: Vec::new() };
    assert(settings_model(s).colors =~= Seq::empty());
    s
}

/// The overrides the stylesheet is generated with: only the theme utility.
pub open spec fn app_overrides_model() -> OverridesModel {
    OverridesModel {
        responsive_breakpoints: Seq::empty(),
        container_breakpoints: Seq::empty(),
        dark_variant_selector: None,
        custom_variant_selectors: Seq::empty(),
        custom_utilities: seq![(THEME_UTILITY_CLASS@, THEME_UTILITY_BODY@)],
        theme_variable_values: Seq::empty(),
        global_theme_reset: false,
        disabled_namespaces: Seq::empty(),
        disabled_color_families: Seq::empty(),
        declared_theme_vars: Seq::empty(),
    }
}

/// The overrides the stylesheet is generated with: only the theme utility.
pub fn variant_overrides() -> (o: CssVariantOverrides)
    ensures
        overrides_model(o) == app_overrides_model(),
{
    let mut custom_utilities: Vec<(String, String)> = Vec::new();
    custom_utilities.push((owned(THEME_UTILITY_CLASS), owned(THEME_UTILITY_BODY)));
    let o = CssVariantOverrides {
        responsive_breakpoints: Vec::new(),
        container_breakpoints: Vec::new(),
        dark_variant_selector: None,
        custom_variant_selectors: Vec::new(),
        custom_utilities,
        theme_variable_values: Vec::new(),
        global_theme_reset: false,
        disabled_namespaces: Vec::new(),
        disabled_color_families: Vec::new(),
        declared_theme_vars: Vec::new(),
    };
    assert(overrides_model(o) =~= app_overrides_model()) by {
        assert(pair_views(o.custom_utilities@) =~= seq![
            (THEME_UTILITY_CLASS@, THEME_UTILITY_BODY@),
        ]);
        assert(pair_views(o.responsive_breakpoints@) =~= Seq::empty());
        assert(pair_views(o.container_breakpoints@) =~= Seq::empty());
        assert(pair_views(o.custom_variant_selectors@) =~= Seq::empty());
        assert(pair_views(o.theme_variable_values@) =~= Seq::empty());
        assert(string_views(o.disabled_namespaces@) =~= Seq::empty());
        assert(string_views(o.disabled_color_families@) =~= Seq::empty());
        assert(string_views(o.declared_theme_vars@) =~= Seq::empty());
    }
    o
}

/// The stylesheet for the given template sources: the generator's CSS for
/// the template classes, with the app settings and overrides.
pub fn generate_app_css(template_sources: &Vec<String>) -> (css: String)
    ensures
        exists|classes: Seq<Seq<char>>|
            {
                &&& sorted_unique(classes)
                &&& classes.to_set() == all_extracted_classes(
                    string_views(template_sources@),
                ).to_set().union(class_safelist().to_set())
                &&& css@ == ironframe_generation(
                    classes,
                    SettingsModel { minify: false, colors: Seq::empty() },
                    app_overrides_model(),
                ).0
            },
{
    let classes = template_classes(template_sources);
    let config = generator_config();
    let overrides = variant_overrides();
    let result = generate_with_overrides(&classes, config, overrides);
    emit_css(&result)
}

} // verus!
