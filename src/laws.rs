//! Properties of template selection and theme renaming, proved over the
//! contracts of `plan_render` and `rewrite_theme_paths`.
use vstd::prelude::*;
use crate::engine::{is_locale, TemplateView};
use crate::resolve::{
    builtin_key, placeholder_url_of, plan_matches, selected_key, theme_key, RenderPlan, TemplateError,
};
use crate::rewrite::{lemma_theme_key_injective, rewritten};

verus! {

/// A structural page kind that no layer holds is rendered as the placeholder.
pub proof fn lemma_missing_structural_gets_placeholder(
    r: Result<RenderPlan, TemplateError>,
    keys: Set<Seq<char>>,
    name: Seq<char>,
    theme: Option<Seq<char>>,
    lang: Option<Option<Seq<char>>>,
    base: Seq<char>,
)
    requires
        plan_matches(r, keys, name, theme, lang, base),
        placeholder_url_of(name) is Some,
        !keys.contains(name),
        !keys.contains(builtin_key(name)),
        theme is Some ==> !keys.contains(theme_key(theme->0, name)),
    ensures
        r matches Ok(RenderPlan::Placeholder),
{
}

/// A name that no layer holds and that is no structural page kind fails with
/// a not-found error that names it.
pub proof fn lemma_missing_other_not_found(
    r: Result<RenderPlan, TemplateError>,
    keys: Set<Seq<char>>,
    name: Seq<char>,
    theme: Option<Seq<char>>,
    lang: Option<Option<Seq<char>>>,
    base: Seq<char>,
)
    requires
        plan_matches(r, keys, name, theme, lang, base),
        placeholder_url_of(name) is None,
        !keys.contains(name),
        !keys.contains(builtin_key(name)),
        theme is Some ==> !keys.contains(theme_key(theme->0, name)),
    ensures
        match r {
            Err(TemplateError::NotFound { name: n }) => n@ == name,
            _ => false,
        },
{
}

/// When the bare name, the theme's copy and the built-in copy all exist, the
/// built-in copy is rendered.
pub proof fn lemma_builtin_wins(keys: Set<Seq<char>>, name: Seq<char>, theme: Seq<char>)
    requires
        keys.contains(name),
        keys.contains(theme_key(theme, name)),
        keys.contains(builtin_key(name)),
    ensures
        selected_key(keys, name, Some(theme)) == Some(builtin_key(name)),
{
}

/// When the bare name and the theme's copy exist and no built-in copy does,
/// the theme's copy is rendered.
pub proof fn lemma_theme_over_site(keys: Set<Seq<char>>, name: Seq<char>, theme: Seq<char>)
    requires
        keys.contains(name),
        keys.contains(theme_key(theme, name)),
        !keys.contains(builtin_key(name)),
    ensures
        selected_key(keys, name, Some(theme)) == Some(theme_key(theme, name)),
{
}

/// After one renaming, every original key `k` also stands under
/// `theme/templates/k`, under that name and otherwise the same; and where no
/// original key already has that shape, the entry under `k` is unchanged.
pub proof fn lemma_rewrite_prefixes_and_keeps(
    m: Map<Seq<char>, TemplateView>,
    theme: Seq<char>,
    k: Seq<char>,
)
    requires
        m.contains_key(k),
    ensures
        rewritten(m, theme).contains_key(theme_key(theme, k)),
        rewritten(m, theme)[theme_key(theme, k)] == (theme_key(theme, k), m[k].1, m[k].2, m[k].3),
        rewritten(m, theme).contains_key(k),
        (forall|o: Seq<char>| m.contains_key(o) ==> k != #[trigger] theme_key(theme, o))
            ==> rewritten(m, theme)[k] == m[k],
{
    let w = rewritten(m, theme);
    let t = theme_key(theme, k);
    assert(crate::rewrite::is_theme_copy(m, theme, t));
    let o = choose|o: Seq<char>| m.contains_key(o) && t == theme_key(theme, o);
    lemma_theme_key_injective(theme, o, k);
}

/// Without a `lang` entry a selected template is rendered without
/// localization, whatever the base path.
pub proof fn lemma_no_lang_no_localization(
    r: Result<RenderPlan, TemplateError>,
    keys: Set<Seq<char>>,
    name: Seq<char>,
    theme: Option<Seq<char>>,
    base: Seq<char>,
)
    requires
        plan_matches(r, keys, name, theme, None, base),
        selected_key(keys, name, theme) is Some,
    ensures
        r matches Ok(RenderPlan::Template { locale: None, .. }),
{
}

/// With a valid `lang` entry and an empty base path a selected template is
/// rendered without localization.
pub proof fn lemma_empty_base_no_localization(
    r: Result<RenderPlan, TemplateError>,
    keys: Set<Seq<char>>,
    name: Seq<char>,
    theme: Option<Seq<char>>,
    lang: Seq<char>,
)
    requires
        plan_matches(r, keys, name, theme, Some(Some(lang)), Seq::empty()),
        selected_key(keys, name, theme) is Some,
        is_locale(lang),
    ensures
        r matches Ok(RenderPlan::Template { locale: None, .. }),
{
}

} // verus!
