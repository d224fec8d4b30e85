//! Trusted access to the template engine and the locale parser.
use vstd::prelude::*;

verus! {

#[verifier::external_type_specification]
#[verifier::external_body]
pub struct ExTera(tera::Tera);

/// What the library sees of a template: its own name, the key of the template
/// it extends if any, the keys of all its ancestors once the inheritance
/// chains are built, and an identity of the rest of its compiled content
/// (path, syntax tree, blocks, macros): two templates have the same identity
/// exactly when those parts are equal.
pub type TemplateView = (Seq<char>, Option<Seq<char>>, Seq<Seq<char>>, int);

/// What a template store holds: the view of the entry under each key.
pub uninterp spec fn registry(t: tera::Tera) -> Map<Seq<char>, TemplateView>;

/// An identity of everything a template store holds besides its templates
/// (filters, testers, functions, autoescape settings, the glob it was loaded
/// from): two stores have the same identity exactly when those parts are equal.
pub uninterp spec fn store_settings(t: tera::Tera) -> int;

/// Relies on `HashMap::contains_key` over the `templates` field of
/// `tera::Tera`: true exactly for the keys that the store holds.
#[verifier::external_body]
pub(crate) fn has_template(tera: &tera::Tera, key: &str) -> (r: bool)
    ensures
        r == registry(*tera).contains_key(key@),
{
    tera.templates.contains_key(key)
}

#[verifier::external_type_specification]
#[verifier::external_body]
pub struct ExContext(tera::Context);

#[verifier::external_type_specification]
#[verifier::external_body]
pub struct ExError(tera::Error);

#[verifier::external_type_specification]
#[verifier::external_body]
pub struct ExLanguageIdentifier(unic_langid::LanguageIdentifier);

/// The value that a render context holds under a key: `None` when the key is
/// absent, `Some(None)` when its value is not a string.
pub uninterp spec fn context_text_of(c: tera::Context, key: Seq<char>) -> Option<Option<Seq<char>>>;

/// Whether a string parses as a locale identifier.
pub uninterp spec fn is_locale(s: Seq<char>) -> bool;

/// The view of what `context_text` returns.
pub open spec fn text_view(o: Option<Option<String>>) -> Option<Option<Seq<char>>> {
    match o {
        Some(Some(s)) => Some(Some(s@)),
        Some(None) => Some(None),
        None => None,
    }
}

/// The markup of the placeholder page, with the variables `filename` and `url`.
pub const DEFAULT_TPL: &'static str = "<!DOCTYPE html>
<html lang=\"en\">
<head>
  <meta charset=\"UTF-8\">
  <meta name=\"viewport\" content=\"width=device-width\">
  <title>File Not Found: {{ filename }}</title>
</head>
<body>
  <h1>Template not found: {{ filename }}</h1>
  <p>
    Zola could not find a template named <code>{{ filename }}</code>, so this
    placeholder was rendered instead. The variables available to that template
    are described in <a href=\"{{ url | safe }}\">{{ url | safe }}</a>.
  </p>
</body>
</html>
";

#[verifier::external_type_specification]
#[verifier::external_body]
pub struct ExTemplate(tera::Template);

/// The view of a single template.
pub uninterp spec fn template_entry(t: tera::Template) -> TemplateView;

/// Relies on `HashMap::keys` over the `templates` field of `tera::Tera`:
/// each key of the store once, in no particular order.
#[verifier::external_body]
pub(crate) fn template_keys(tera: &tera::Tera) -> (r: Vec<String>)
    ensures
        forall|i: int, j: int| 0 <= i < j < r@.len() ==> r@[i]@ != r@[j]@,
        forall|i: int| 0 <= i < r@.len() ==> registry(*tera).contains_key(#[trigger] r@[i]@),
        forall|k: Seq<char>| #[trigger] registry(*tera).contains_key(k) ==> exists|i: int| 0 <= i < r@.len() && r@[i]@ == k,
        registry(*tera).dom() == r@.map_values(|s: String| s@).to_set(),
{
    tera.templates.keys().cloned().collect()
}

/// Relies on `tera::Template`'s derived `Clone`: a copy of the entry under
/// `key`, equal in every field.
#[verifier::external_body]
pub(crate) fn copy_template(tera: &tera::Tera, key: &str) -> (r: tera::Template)
    requires
        registry(*tera).contains_key(key@),
    ensures
        template_entry(r) == registry(*tera)[key@],
{
    tera.templates[key].clone()
}

/// Relies on the public `name` field of `tera::Template`: only the name
/// changes.
#[verifier::external_body]
pub(crate) fn set_template_name(t: &mut tera::Template, name: String)
    ensures
        template_entry(*final(t)) == (
            name@,
            template_entry(*old(t)).1,
            template_entry(*old(t)).2,
            template_entry(*old(t)).3,
        ),
{
    t.name = name;
}

/// Relies on `HashMap::insert` over the `templates` field of `tera::Tera`:
/// the entry is added, or replaces the one under the same key, and no other
/// field of the store is touched.
#[verifier::external_body]
pub(crate) fn insert_template(tera: &mut tera::Tera, key: String, t: tera::Template)
    ensures
        registry(*final(tera)) == registry(*old(tera)).insert(key@, template_entry(t)),
        store_settings(*final(tera)) == store_settings(*old(tera)),
{
    tera.templates.insert(key, t);
}

/// Relies on `tera::Context::get` and `serde_json::Value::as_str`: the entry
/// under `key`, and its text when it is a string.
#[verifier::external_body]
pub(crate) fn context_text(ctx: &tera::Context, key: &str) -> (r: Option<Option<String>>)
    ensures
        text_view(r) == context_text_of(*ctx, key@),
{
    ctx.get(key).map(|v| v.as_str().map(|s| s.to_string()))
}

/// Relies on `LanguageIdentifier`'s `FromStr`: it succeeds exactly on the
/// strings that are locale identifiers.
#[verifier::external_body]
pub(crate) fn parse_locale(s: &str) -> (r: Option<unic_langid::LanguageIdentifier>)
    ensures
        r is Some == is_locale(s@),
{
    s.parse::<unic_langid::LanguageIdentifier>().ok()
}

/// All ancestors of the entry under `key` are in the store.
pub open spec fn parents_present(m: Map<Seq<char>, TemplateView>, key: Seq<char>) -> bool {
    forall|i: int| 0 <= i < m[key].2.len() ==> m.contains_key(#[trigger] m[key].2[i])
}

/// Relies on the public `parents` field of `tera::Template`: the ancestors of
/// the entry under `key`.
#[verifier::external_body]
pub(crate) fn template_parents(tera: &tera::Tera, key: &str) -> (r: Vec<String>)
    requires
        registry(*tera).contains_key(key@),
    ensures
        r@.len() == registry(*tera)[key@].2.len(),
        forall|i: int| 0 <= i < r@.len() ==> #[trigger] r@[i]@ == registry(*tera)[key@].2[i],
{
    tera.templates[key].parents.clone()
}

/// The text that an engine error displays.
pub uninterp spec fn engine_message_of(e: tera::Error) -> Seq<char>;

/// Relies on the `Display` of `tera::Error`, which depends on the error alone.
#[verifier::external_body]
pub(crate) fn engine_message(e: &tera::Error) -> (r: String)
    ensures
        r@ == engine_message_of(*e),
{
    e.to_string()
}

/// A character as HTML escaping writes it.
pub open spec fn escaped_char(c: char) -> Seq<char> {
    if c == '&' {
        "&amp;"@
    } else if c == '<' {
        "&lt;"@
    } else if c == '>' {
        "&gt;"@
    } else if c == '"' {
        "&quot;"@
    } else if c == '\'' {
        "&#x27;"@
    } else if c == '/' {
        "&#x2F;"@
    } else {
        seq![c]
    }
}

/// A text as HTML escaping writes it.
pub open spec fn html_escaped(s: Seq<char>) -> Seq<char>
    decreases s.len(),
{
    if s.len() == 0 {
        Seq::empty()
    } else {
        escaped_char(s[0]) + html_escaped(s.drop_first())
    }
}

/// The placeholder page for a file name and a documentation link: the markup
/// of `DEFAULT_TPL` with the file name escaped and the link as given.
pub open spec fn placeholder_page(filename: Seq<char>, url: Seq<char>) -> Seq<char> {
    let f = html_escaped(filename);
    "<!DOCTYPE html>\n<html lang=\"en\">\n<head>\n  <meta charset=\"UTF-8\">\n  <meta name=\"viewport\" content=\"width=device-width\">\n  <title>File Not Found: "@
        + f + "</title>\n</head>\n<body>\n  <h1>Template not found: "@ + f
        + "</h1>\n  <p>\n    Zola could not find a template named <code>"@ + f
        + "</code>, so this\n    placeholder was rendered instead. The variables available to that template\n    are described in <a href=\""@
        + url + "\">"@ + url + "</a>.\n  </p>\n</body>\n</html>\n"@
}

/// `s` holds none of the characters that HTML escaping replaces.
pub open spec fn html_plain(s: Seq<char>) -> bool {
    forall|i: int| 0 <= i < s.len() ==> {
        let c = #[trigger] s[i];
        c != '&' && c != '<' && c != '>' && c != '"' && c != '\'' && c != '/'
    }
}

/// A text that escaping leaves alone is written as it is.
pub proof fn lemma_plain_unescaped(s: Seq<char>)
    requires
        html_plain(s),
    ensures
        html_escaped(s) == s,
    decreases s.len(),
{
    if s.len() > 0 {
        assert(s[0] == s[0]);
        let rest = s.drop_first();
        assert forall|i: int| 0 <= i < rest.len() implies {
            let c = #[trigger] rest[i];
            c != '&' && c != '<' && c != '>' && c != '"' && c != '\'' && c != '/'
        } by {
            assert(rest[i] == s[i + 1]);
        }
        lemma_plain_unescaped(rest);
        assert(escaped_char(s[0]) == seq![s[0]]);
        assert(s =~= seq![s[0]] + rest);
    }
}

/// `t` occurs between `a` and `b`.
pub proof fn lemma_contains_middle(a: Seq<char>, t: Seq<char>, b: Seq<char>)
    ensures
        contains_text(a + t + b, t),
{
    let s = a + t + b;
    assert(s.subrange(a.len() as int, (a.len() + t.len()) as int) =~= t);
}

/// The placeholder page holds the link, and the file name when escaping
/// leaves it alone.
pub proof fn lemma_placeholder_contents(filename: Seq<char>, url: Seq<char>)
    ensures
        contains_text(placeholder_page(filename, url), url),
        html_plain(filename) ==> contains_text(placeholder_page(filename, url), filename),
{
    let p = placeholder_page(filename, url);
    let f = html_escaped(filename);
    let head = "<!DOCTYPE html>\n<html lang=\"en\">\n<head>\n  <meta charset=\"UTF-8\">\n  <meta name=\"viewport\" content=\"width=device-width\">\n  <title>File Not Found: "@;
    let p1 = "</title>\n</head>\n<body>\n  <h1>Template not found: "@;
    let p2 = "</h1>\n  <p>\n    Zola could not find a template named <code>"@;
    let p3 = "</code>, so this\n    placeholder was rendered instead. The variables available to that template\n    are described in <a href=\""@;
    let p4 = "\">"@;
    let p5 = "</a>.\n  </p>\n</body>\n</html>\n"@;
    let before_url = head + f + p1 + f + p2 + f + p3;
    assert(p =~= before_url + url + (p4 + url + p5));
    lemma_contains_middle(before_url, url, p4 + url + p5);
    if html_plain(filename) {
        lemma_plain_unescaped(filename);
        assert(p =~= head + filename + (p1 + f + p2 + f + p3 + url + p4 + url + p5));
        lemma_contains_middle(head, filename, p1 + f + p2 + f + p3 + url + p4 + url + p5);
    }
}

/// `t` occurs in `s`.
pub open spec fn contains_text(s: Seq<char>, t: Seq<char>) -> bool {
    exists|i: int| 0 <= i && i + t.len() <= s.len() && #[trigger] s.subrange(i, i + t.len()) == t
}

/// Relies on `tera::Tera::one_off`: the placeholder markup rendered, with
/// escaping on, for the given file name and link. The markup is fixed and
/// valid and uses only these two variables, so the render succeeds; its text
/// is written as it stands, the file name through `tera::escape_html` and the
/// link, which goes through `safe`, as given.
#[verifier::external_body]
pub(crate) fn render_one_off(tpl: &str, filename: &str, url: &str) -> (r: Result<String, tera::Error>)
    requires
        tpl@ == DEFAULT_TPL@,
    ensures
        r is Ok,
        r->Ok_0@ == placeholder_page(filename@, url@),
{
    let mut ctx = tera::Context::new();
    ctx.insert("filename", filename);
    ctx.insert("url", url);
    tera::Tera::one_off(tpl, &ctx, true)
}

} // verus!
