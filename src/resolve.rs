//! Choosing the template that renders a logical name.
use vstd::prelude::*;
use crate::engine::{
    contains_text, context_text, context_text_of, engine_message, engine_message_of, has_template,
    html_plain, is_locale, parents_present, parse_locale, placeholder_page, registry, render_one_off,
    template_parents, DEFAULT_TPL,
};

verus! {

/// The key under which a theme's copy of `name` is stored.
pub open spec fn theme_key(theme: Seq<char>, name: Seq<char>) -> Seq<char> {
    theme + "/templates/"@ + name
}

/// The key under which the built-in copy of `name` is stored.
pub open spec fn builtin_key(name: Seq<char>) -> Seq<char> {
    "__zola_builtins/"@ + name
}

/// The key that renders `name`: the built-in copy if there is one, else the
/// active theme's copy, else the bare name, else none.
pub open spec fn selected_key(
    keys: Set<Seq<char>>,
    name: Seq<char>,
    theme: Option<Seq<char>>,
) -> Option<Seq<char>> {
    if keys.contains(builtin_key(name)) {
        Some(builtin_key(name))
    } else if theme is Some && keys.contains(theme_key(theme->0, name)) {
        Some(theme_key(theme->0, name))
    } else if keys.contains(name) {
        Some(name)
    } else {
        None
    }
}

/// The view of an optional string.
pub open spec fn opt_view(o: Option<String>) -> Option<Seq<char>> {
    match o {
        Some(s) => Some(s@),
        None => None,
    }
}

/// Builds `theme/templates/name`.
pub fn make_theme_key(theme: &str, name: &str) -> (r: String)
    ensures
        r@ == theme_key(theme@, name@),
{
    let mut k = String::from_str(theme);
    k.append("/templates/");
    k.append(name);
    k
}

/// Builds `__zola_builtins/name`.
pub fn make_builtin_key(name: &str) -> (r: String)
    ensures
        r@ == builtin_key(name@),
{
    let mut k = String::from_str("__zola_builtins/");
    k.append(name);
    k
}

/// Finds the key to render for `name`. The candidates are tried in a fixed
/// order (bare name, theme copy, built-in copy) and the last one present wins.
pub fn resolve_template(name: &str, tera: &tera::Tera, theme: &Option<String>) -> (r: Option<String>)
    ensures
        opt_view(r) == selected_key(registry(*tera).dom(), name@, opt_view(*theme)),
{
    let mut selected: Option<String> = None;
    if has_template(tera, name) {
        selected = Some(String::from_str(name));
    }
    match theme {
        Some(t) => {
            let k = make_theme_key(t.as_str(), name);
            if has_template(tera, k.as_str()) {
                selected = Some(k);
            }
        },
        None => {},
    }
    let b = make_builtin_key(name);
    if has_template(tera, b.as_str()) {
        selected = Some(b);
    }
    selected
}

/// Why a render failed.
#[derive(Debug)]
pub enum TemplateError {
    /// The context's `lang` entry is not a locale identifier; `None` when it
    /// is not a string at all.
    LocaleParse { lang: Option<String> },
    /// The localization resources could not be loaded.
    LocalizationSetup { message: String },
    /// The selected template extends a template that the store lacks.
    MissingParent { template: String, parent: String },
    /// The engine failed while rendering the selected template; it holds the
    /// engine's diagnostic.
    Render(tera::Error),
    /// No layer holds the template and it has no placeholder.
    NotFound { name: String },
}

/// The sentence that describes an error.
pub open spec fn message_of(e: TemplateError) -> Seq<char> {
    match e {
        TemplateError::LocaleParse { lang: Some(l) } => "Invalid page language: "@ + l@,
        TemplateError::LocaleParse { lang: None } => "Can't get page language"@,
        TemplateError::LocalizationSetup { message } => message@,
        TemplateError::MissingParent { template, parent } => "Template `"@ + template@ + "` extends `"@
            + parent@ + "`, which wasn't found"@,
        TemplateError::Render(e) => "Failed to render the template: "@ + engine_message_of(e),
        TemplateError::NotFound { name } => "Tried to render `"@ + name@ + "` but the template wasn't found"@,
    }
}

impl TemplateError {
    /// A sentence that describes the failure.
    pub fn message(&self) -> (r: String)
        ensures
            r@ == message_of(*self),
    {
        match self {
            TemplateError::LocaleParse { lang: Some(l) } => {
                let mut m = String::from_str("Invalid page language: ");
                m.append(l.as_str());
                m
            },
            TemplateError::LocaleParse { lang: None } => String::from_str("Can't get page language"),
            TemplateError::LocalizationSetup { message } => message.clone(),
            TemplateError::MissingParent { template, parent } => {
                let mut m = String::from_str("Template `");
                m.append(template.as_str());
                m.append("` extends `");
                m.append(parent.as_str());
                m.append("`, which wasn't found");
                m
            },
            TemplateError::Render(e) => {
                let mut m = String::from_str("Failed to render the template: ");
                let d = engine_message(e);
                m.append(d.as_str());
                m
            },
            TemplateError::NotFound { name } => {
                let mut m = String::from_str("Tried to render `");
                m.append(name.as_str());
                m.append("` but the template wasn't found");
                m
            },
        }
    }
}

/// Documentation of the variables of sections and of the index page.
pub const SECTION_DOCS: &'static str = "https://www.getzola.org/documentation/templates/pages-sections/#section-variables";

/// Documentation of the variables of pages.
pub const PAGE_DOCS: &'static str = "https://www.getzola.org/documentation/templates/pages-sections/#page-variables";

/// Documentation of the variables of taxonomy pages.
pub const TAXONOMY_DOCS: &'static str = "https://www.getzola.org/documentation/templates/taxonomies/";

/// The documentation link of the placeholder for a structural page kind, and
/// none for any other name.
pub open spec fn placeholder_url_of(name: Seq<char>) -> Option<Seq<char>> {
    if name == "index.html"@ || name == "section.html"@ {
        Some(SECTION_DOCS@)
    } else if name == "page.html"@ {
        Some(PAGE_DOCS@)
    } else if name == "single.html"@ || name == "list.html"@ {
        Some(TAXONOMY_DOCS@)
    } else {
        None
    }
}

/// The directory that holds a site's localization resources.
pub open spec fn locales_dir(base: Seq<char>) -> Seq<char> {
    base + "/locales"@
}

/// The documentation link of the placeholder that stands in for `name`.
pub fn placeholder_url(name: &str) -> (r: Option<&'static str>)
    ensures
        match r {
            Some(u) => placeholder_url_of(name@) == Some(u@),
            None => placeholder_url_of(name@) is None,
        },
{
    let n = String::from_str(name);
    if n == String::from_str("index.html") || n == String::from_str("section.html") {
        Some(SECTION_DOCS)
    } else if n == String::from_str("page.html") {
        Some(PAGE_DOCS)
    } else if n == String::from_str("single.html") || n == String::from_str("list.html") {
        Some(TAXONOMY_DOCS)
    } else {
        None
    }
}

/// Where and in which locale the `fluent` function is to be loaded.
pub struct LocaleRequest {
    /// The parsed locale.
    pub lang: unic_langid::LanguageIdentifier,
    /// The context's `lang` entry that `lang` was parsed from.
    pub tag: String,
    /// The directory of the localization resources.
    pub dir: String,
}

/// What the context and the base path ask of localization: nothing without a
/// `lang` entry or without a base path, else the locale and the directory of
/// its resources.
pub open spec fn locale_outcome(
    lang: Option<Option<Seq<char>>>,
    base: Seq<char>,
) -> Result<Option<(Seq<char>, Seq<char>)>, Option<Seq<char>>> {
    match lang {
        None => Ok(None),
        Some(None) => Err(None),
        Some(Some(l)) => if !is_locale(l) {
            Err(Some(l))
        } else if base.len() == 0 {
            Ok(None)
        } else {
            Ok(Some((l, locales_dir(base))))
        },
    }
}

/// `r` is the outcome `o`: the same language and directory, or the same
/// rejected language.
pub open spec fn locale_matches(
    r: Result<Option<LocaleRequest>, TemplateError>,
    o: Result<Option<(Seq<char>, Seq<char>)>, Option<Seq<char>>>,
) -> bool {
    match (r, o) {
        (Ok(None), Ok(None)) => true,
        (Ok(Some(q)), Ok(Some((tag, dir)))) => q.tag@ == tag && q.dir@ == dir,
        (Err(TemplateError::LocaleParse { lang }), Err(l)) => opt_view(lang) == l,
        _ => false,
    }
}

/// Decides the localization of a render from the context's `lang` entry and
/// the site's base path. The base path is not looked at without a `lang`.
pub fn locale_request(context: &tera::Context, base_path: &str) -> (r: Result<Option<LocaleRequest>, TemplateError>)
    ensures
        locale_matches(r, locale_outcome(context_text_of(*context, "lang"@), base_path@)),
{
    match context_text(context, "lang") {
        None => Ok(None),
        Some(None) => Err(TemplateError::LocaleParse { lang: None }),
        Some(Some(l)) => match parse_locale(l.as_str()) {
            None => Err(TemplateError::LocaleParse { lang: Some(l) }),
            Some(lang) => {
                if base_path.is_empty() {
                    Ok(None)
                } else {
                    let mut dir = String::from_str(base_path);
                    dir.append("/locales");
                    Ok(Some(LocaleRequest { lang, tag: l, dir }))
                }
            },
        },
    }
}

/// The next step of a render.
pub enum RenderPlan {
    /// Render the entry under `key`, loading the `fluent` function first
    /// when `locale` asks for it.
    Template { key: String, locale: Option<LocaleRequest> },
    /// No layer holds the template: render the built-in placeholder.
    Placeholder,
}

/// `r` is the plan for rendering `name` from a store with the keys `keys`.
pub open spec fn plan_matches(
    r: Result<RenderPlan, TemplateError>,
    keys: Set<Seq<char>>,
    name: Seq<char>,
    theme: Option<Seq<char>>,
    lang: Option<Option<Seq<char>>>,
    base: Seq<char>,
) -> bool {
    match selected_key(keys, name, theme) {
        Some(k) => match r {
            Ok(RenderPlan::Template { key, locale }) => key@ == k && locale_matches(
                Ok(locale),
                locale_outcome(lang, base),
            ),
            Ok(RenderPlan::Placeholder) => false,
            Err(e) => locale_matches(Err(e), locale_outcome(lang, base)),
        },
        None => match placeholder_url_of(name) {
            Some(_) => r matches Ok(RenderPlan::Placeholder),
            None => match r {
                Err(TemplateError::NotFound { name: n }) => n@ == name,
                _ => false,
            },
        },
    }
}

/// Decides how `name` is rendered: which entry of the store, with which
/// localization, or the placeholder, or that the template is missing.
pub fn plan_render(
    name: &str,
    tera: &tera::Tera,
    context: &tera::Context,
    theme: &Option<String>,
    base_path: &str,
) -> (r: Result<RenderPlan, TemplateError>)
    ensures
        plan_matches(
            r,
            registry(*tera).dom(),
            name@,
            opt_view(*theme),
            context_text_of(*context, "lang"@),
            base_path@,
        ),
{
    match resolve_template(name, tera, theme) {
        Some(key) => match locale_request(context, base_path) {
            Ok(locale) => Ok(RenderPlan::Template { key, locale }),
            Err(e) => Err(e),
        },
        None => match placeholder_url(name) {
            Some(_) => Ok(RenderPlan::Placeholder),
            None => Err(TemplateError::NotFound { name: String::from_str(name) }),
        },
    }
}

/// `i` is the index of the first ancestor of `key` that the store lacks.
pub open spec fn first_missing_parent(m: Map<Seq<char>, crate::engine::TemplateView>, key: Seq<char>, i: int) -> bool {
    0 <= i < m[key].2.len() && !m.contains_key(m[key].2[i]) && forall|j: int|
        0 <= j < i ==> m.contains_key(#[trigger] m[key].2[j])
}

/// Checks that the entry under `key` can be handed to the engine: every
/// ancestor it lists is in the store. A missing key passes, since the engine
/// reports it as an error of its own.
pub fn check_ancestors(tera: &tera::Tera, key: &str) -> (r: Result<(), TemplateError>)
    ensures
        !registry(*tera).contains_key(key@) || parents_present(registry(*tera), key@) <==> r is Ok,
        match r {
            Err(TemplateError::MissingParent { template, parent }) => template@ == key@ && exists|i: int|
                first_missing_parent(registry(*tera), key@, i) && parent@ == registry(*tera)[key@].2[i],
            Err(_) => false,
            Ok(_) => true,
        },
{
    if has_template(tera, key) {
        let parents = template_parents(tera, key);
        let mut i: usize = 0;
        while i < parents.len()
            invariant
                i <= parents@.len(),
                registry(*tera).contains_key(key@),
                parents@.len() == registry(*tera)[key@].2.len(),
                forall|j: int| 0 <= j < parents@.len() ==> #[trigger] parents@[j]@ == registry(*tera)[key@].2[j],
                forall|j: int| 0 <= j < i ==> registry(*tera).contains_key(#[trigger] registry(*tera)[key@].2[j]),
            decreases parents@.len() - i,
        {
            if !has_template(tera, parents[i].as_str()) {
                assert(first_missing_parent(registry(*tera), key@, i as int));
                return Err(TemplateError::MissingParent { template: String::from_str(key), parent: parents[i].clone() });
            }
            i = i + 1;
        }
    }
    Ok(())
}

/// A text that holds a non-empty text is not empty.
pub proof fn lemma_text_nonempty(s: Seq<char>, t: Seq<char>)
    requires
        contains_text(s, t),
        t.len() > 0,
    ensures
        s.len() > 0,
{
}

/// The five structural names hold no character that HTML escaping replaces.
pub proof fn lemma_structural_names_plain(name: Seq<char>)
    requires
        placeholder_url_of(name) is Some,
    ensures
        html_plain(name),
        name.len() > 0,
{
    reveal_strlit("index.html");
    reveal_strlit("section.html");
    reveal_strlit("page.html");
    reveal_strlit("single.html");
    reveal_strlit("list.html");
}

/// Renders the placeholder that stands in for a missing structural template,
/// or fails with a not-found error naming any other template.
pub fn render_placeholder(name: &str) -> (r: Result<String, TemplateError>)
    ensures
        match placeholder_url_of(name@) {
            Some(u) => match r {
                Ok(page) => page@ == placeholder_page(name@, u) && page@.len() > 0 && contains_text(page@, name@)
                    && contains_text(page@, u),
                Err(_) => false,
            },
            None => match r {
                Err(TemplateError::NotFound { name: n }) => n@ == name@,
                _ => false,
            },
        },
{
    match placeholder_url(name) {
        Some(url) => {
            proof {
                lemma_structural_names_plain(name@);
            }
            match render_one_off(DEFAULT_TPL, name, url) {
                Ok(s) => {
                    proof {
                        crate::engine::lemma_placeholder_contents(name@, url@);
                        lemma_text_nonempty(s@, name@);
                    }
                    Ok(s)
                },
                Err(e) => Err(TemplateError::Render(e)),
            }
        },
        None => Err(TemplateError::NotFound { name: String::from_str(name) }),
    }
}

} // verus!
