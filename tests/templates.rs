use tera::{Context, Template, Tera};
use zola_templates::resolve::{
    check_ancestors, locale_request, make_builtin_key, make_theme_key, placeholder_url, plan_render,
    render_placeholder, resolve_template, RenderPlan, TemplateError, PAGE_DOCS, SECTION_DOCS,
    TAXONOMY_DOCS,
};
use zola_templates::rewrite::rewrite_theme_paths;

fn store(entries: &[(&str, &str)]) -> Tera {
    let mut tera = Tera::default();
    for (name, body) in entries {
        let tpl = Template::new(name, None, body).unwrap();
        tera.templates.insert(name.to_string(), tpl);
    }
    tera
}

fn render_selected(tera: &Tera, key: &str, context: &Context) -> Result<String, TemplateError> {
    check_ancestors(tera, key)?;
    tera.render(key, context).map_err(TemplateError::Render)
}

fn theme_store() -> Tera {
    store(&[
        ("index.html", "{% extends \"base.html\" %}{% block content %}Index{% endblock %}"),
        ("child.html", "{% extends \"index.html\" %}{% block content %}Child{% endblock %}"),
    ])
}

#[test]
fn can_rewrite_all_paths_of_theme() {
    let mut tera = theme_store();
    rewrite_theme_paths(&mut tera, "hyde");
    // special case to make the test work: we also rename the files to
    // match the imports
    for (key, val) in &tera.templates.clone() {
        tera.templates.insert(format!("hyde/templates/{}", key), val.clone());
    }
    // Adding our fake base
    tera.add_raw_template("base.html", "Hello").unwrap();
    tera.build_inheritance_chains().unwrap();

    assert_eq!(
        tera.templates["hyde/templates/index.html"].parent,
        Some("base.html".to_string())
    );
    assert_eq!(
        tera.templates["hyde/templates/child.html"].parent,
        Some("index.html".to_string())
    );
}

#[test]
fn rewrite_adds_named_copies_and_keeps_originals() {
    let mut tera = theme_store();
    rewrite_theme_paths(&mut tera, "hyde");
    assert_eq!(tera.templates.len(), 4);
    assert_eq!(tera.templates["hyde/templates/index.html"].name, "hyde/templates/index.html");
    assert_eq!(tera.templates["hyde/templates/child.html"].name, "hyde/templates/child.html");
    assert_eq!(tera.templates["hyde/templates/child.html"].parent, Some("index.html".to_string()));
    assert_eq!(tera.templates["index.html"].name, "index.html");
    assert_eq!(tera.templates["child.html"].name, "child.html");
    assert_eq!(tera.templates["child.html"].parent, Some("index.html".to_string()));
}

#[test]
fn rewrite_replaces_an_existing_prefixed_entry() {
    let mut tera = store(&[("a.html", "A"), ("t/templates/a.html", "old")]);
    rewrite_theme_paths(&mut tera, "t");
    assert_eq!(tera.templates.len(), 3);
    assert_eq!(tera.templates["t/templates/a.html"].name, "t/templates/a.html");
    assert_eq!(tera.render("t/templates/a.html", &Context::new()).unwrap(), "A");
    assert_eq!(tera.render("t/templates/t/templates/a.html", &Context::new()).unwrap(), "old");
}

#[test]
fn rewrite_copies_keep_the_body() {
    let mut tera = store(&[("a.html", "Hi {{ x }}")]);
    rewrite_theme_paths(&mut tera, "t");
    let mut ctx = Context::new();
    ctx.insert("x", "there");
    assert_eq!(tera.render("a.html", &ctx).unwrap(), "Hi there");
    assert_eq!(tera.render("t/templates/a.html", &ctx).unwrap(), "Hi there");
}

#[test]
fn rewrite_twice_prefixes_again() {
    let mut tera = store(&[("a.html", "A")]);
    rewrite_theme_paths(&mut tera, "t");
    rewrite_theme_paths(&mut tera, "t");
    assert_eq!(tera.templates.len(), 3);
    assert!(tera.templates.contains_key("t/templates/t/templates/a.html"));
}

#[test]
fn rewrite_of_empty_store_is_empty() {
    let mut tera = Tera::default();
    rewrite_theme_paths(&mut tera, "hyde");
    assert!(tera.templates.is_empty());
}

#[test]
fn keys_are_built_from_their_parts() {
    assert_eq!(make_theme_key("hyde", "index.html"), "hyde/templates/index.html");
    assert_eq!(make_builtin_key("rss.xml"), "__zola_builtins/rss.xml");
}

#[test]
fn builtin_copy_wins_over_theme_and_site() {
    let tera = store(&[
        ("index.html", "site"),
        ("hyde/templates/index.html", "theme"),
        ("__zola_builtins/index.html", "builtin"),
    ]);
    let theme = Some("hyde".to_string());
    assert_eq!(resolve_template("index.html", &tera, &theme), Some("__zola_builtins/index.html".to_string()));
    let out = render_selected(&tera, "__zola_builtins/index.html", &Context::new()).unwrap();
    assert_eq!(out, "builtin");
}

#[test]
fn theme_copy_wins_over_site() {
    let tera = store(&[("index.html", "site"), ("hyde/templates/index.html", "theme")]);
    let theme = Some("hyde".to_string());
    assert_eq!(resolve_template("index.html", &tera, &theme), Some("hyde/templates/index.html".to_string()));
}

#[test]
fn theme_copy_ignored_without_active_theme() {
    let tera = store(&[("index.html", "site"), ("hyde/templates/index.html", "theme")]);
    assert_eq!(resolve_template("index.html", &tera, &None), Some("index.html".to_string()));
    let other = Some("other".to_string());
    assert_eq!(resolve_template("index.html", &tera, &other), Some("index.html".to_string()));
}

#[test]
fn nothing_selected_for_unknown_name() {
    let tera = store(&[("index.html", "site")]);
    assert_eq!(resolve_template("page.html", &tera, &Some("hyde".to_string())), None);
}

#[test]
fn placeholder_urls_by_kind() {
    assert_eq!(placeholder_url("index.html"), Some(SECTION_DOCS));
    assert_eq!(placeholder_url("section.html"), Some(SECTION_DOCS));
    assert_eq!(placeholder_url("page.html"), Some(PAGE_DOCS));
    assert_eq!(placeholder_url("single.html"), Some(TAXONOMY_DOCS));
    assert_eq!(placeholder_url("list.html"), Some(TAXONOMY_DOCS));
    assert_eq!(placeholder_url("other.html"), None);
    assert_eq!(
        PAGE_DOCS,
        "https://www.getzola.org/documentation/templates/pages-sections/#page-variables"
    );
}

#[test]
fn placeholder_names_the_file_and_its_docs() {
    for (name, url) in [
        ("index.html", SECTION_DOCS),
        ("section.html", SECTION_DOCS),
        ("page.html", PAGE_DOCS),
        ("single.html", TAXONOMY_DOCS),
        ("list.html", TAXONOMY_DOCS),
    ] {
        let out = render_placeholder(name).unwrap();
        assert!(!out.is_empty());
        assert!(out.contains(name));
        assert!(out.contains(url));
    }
}

#[test]
fn unknown_template_is_not_found() {
    match render_placeholder("foo.html") {
        Err(e) => {
            assert!(matches!(e, TemplateError::NotFound { .. }));
            assert!(e.message().contains("foo.html"));
        }
        Ok(_) => panic!("expected an error"),
    }
    let tera = store(&[("index.html", "site")]);
    match plan_render("foo.html", &tera, &Context::new(), &None, "") {
        Err(e) => {
            assert_eq!(e.message(), "Tried to render `foo.html` but the template wasn't found");
            assert!(matches!(e, TemplateError::NotFound { name } if name == "foo.html"));
        }
        _ => panic!("expected a not-found error"),
    }
}

#[test]
fn error_messages_are_exact() {
    let e = TemplateError::LocaleParse { lang: Some("x y".to_string()) };
    assert_eq!(e.message(), "Invalid page language: x y");
    assert_eq!(TemplateError::LocaleParse { lang: None }.message(), "Can't get page language");
    let e = TemplateError::LocalizationSetup { message: "bad ftl".to_string() };
    assert_eq!(e.message(), "bad ftl");
    let e = TemplateError::MissingParent { template: "a.html".to_string(), parent: "b.html".to_string() };
    assert_eq!(e.message(), "Template `a.html` extends `b.html`, which wasn't found");
}

#[test]
fn render_error_message_carries_the_engine_diagnostic() {
    let tera = store(&[("page.html", "Hello {{ who }}")]);
    match render_selected(&tera, "page.html", &Context::new()) {
        Err(e) => {
            let m = e.message();
            assert!(m.starts_with("Failed to render the template: "));
            assert!(m.len() > "Failed to render the template: ".len());
        }
        Ok(_) => panic!("expected a render error"),
    }
}

#[test]
fn ancestors_checked_only_for_present_keys() {
    let tera = store(&[("page.html", "x")]);
    assert!(check_ancestors(&tera, "page.html").is_ok());
    assert!(check_ancestors(&tera, "missing.html").is_ok());
}

#[test]
fn missing_ancestor_is_refused_before_rendering() {
    let mut tera = store(&[("child.html", "{% extends \"index.html\" %}{% block content %}C{% endblock %}")]);
    tera.templates.get_mut("child.html").unwrap().parents = vec!["index.html".to_string()];
    match render_selected(&tera, "child.html", &Context::new()) {
        Err(TemplateError::MissingParent { template, parent }) => {
            assert_eq!(template, "child.html");
            assert_eq!(parent, "index.html");
        }
        _ => panic!("expected a missing-parent error"),
    }
}

#[test]
fn render_with_ancestors_present() {
    let mut tera = Tera::default();
    tera.add_raw_templates(vec![
        ("base.html", "[{% block content %}{% endblock %}]"),
        ("child.html", "{% extends \"base.html\" %}{% block content %}C{% endblock %}"),
    ])
    .unwrap();
    assert_eq!(render_selected(&tera, "child.html", &Context::new()).unwrap(), "[C]");
}

#[test]
fn missing_structural_template_plans_placeholder() {
    let tera = Tera::default();
    let plan = plan_render("page.html", &tera, &Context::new(), &Some("hyde".to_string()), "/site");
    assert!(matches!(plan, Ok(RenderPlan::Placeholder)));
}

#[test]
fn no_lang_means_no_localization() {
    let tera = store(&[("page.html", "x")]);
    match plan_render("page.html", &tera, &Context::new(), &None, "/site") {
        Ok(RenderPlan::Template { key, locale }) => {
            assert_eq!(key, "page.html");
            assert!(locale.is_none());
        }
        _ => panic!("expected a template plan"),
    }
}

#[test]
fn empty_base_path_means_no_localization() {
    let mut ctx = Context::new();
    ctx.insert("lang", "fr");
    assert!(matches!(locale_request(&ctx, ""), Ok(None)));
}

#[test]
fn lang_and_base_path_ask_for_locales_dir() {
    let mut ctx = Context::new();
    ctx.insert("lang", "fr");
    let tera = store(&[("page.html", "x")]);
    match plan_render("page.html", &tera, &ctx, &None, "/site") {
        Ok(RenderPlan::Template { locale: Some(req), .. }) => {
            assert_eq!(req.dir, "/site/locales");
            assert_eq!(req.tag, "fr");
            assert_eq!(req.lang.to_string(), "fr");
        }
        _ => panic!("expected a localized plan"),
    }
}

#[test]
fn malformed_lang_is_a_locale_error() {
    let mut ctx = Context::new();
    ctx.insert("lang", "not a locale!");
    match locale_request(&ctx, "/site") {
        Err(TemplateError::LocaleParse { lang }) => assert_eq!(lang, Some("not a locale!".to_string())),
        _ => panic!("expected a locale error"),
    }
    let mut ctx = Context::new();
    ctx.insert("lang", &5);
    assert!(matches!(locale_request(&ctx, "/site"), Err(TemplateError::LocaleParse { lang: None })));
}

#[test]
fn render_uses_the_context() {
    let tera = store(&[("page.html", "Hello {{ who }}")]);
    let mut ctx = Context::new();
    ctx.insert("who", "world");
    assert_eq!(render_selected(&tera, "page.html", &ctx).unwrap(), "Hello world");
    assert!(matches!(render_selected(&tera, "page.html", &Context::new()), Err(TemplateError::Render(_))));
    assert!(matches!(render_selected(&tera, "missing.html", &ctx), Err(TemplateError::Render(_))));
}

#[test]
fn placeholder_page_is_the_markup_with_name_and_link() {
    let expected = format!(
        "<!DOCTYPE html>\n<html lang=\"en\">\n<head>\n  <meta charset=\"UTF-8\">\n  <meta name=\"viewport\" content=\"width=device-width\">\n  <title>File Not Found: {f}</title>\n</head>\n<body>\n  <h1>Template not found: {f}</h1>\n  <p>\n    Zola could not find a template named <code>{f}</code>, so this\n    placeholder was rendered instead. The variables available to that template\n    are described in <a href=\"{u}\">{u}</a>.\n  </p>\n</body>\n</html>\n",
        f = "single.html",
        u = TAXONOMY_DOCS
    );
    assert_eq!(render_placeholder("single.html").unwrap(), expected);
}
