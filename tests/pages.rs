use portfolio_site::pages::{
    error_bindings, error_page_from, index_page, not_found_bindings, not_found_page, status_text, ContentType,
    IndexFailure, Page,
};

fn registry_with_error_page() -> tera::Tera {
    let mut t = tera::Tera::default();
    t.add_raw_template("error.html", "<h1>{{ status_code }}</h1><p>{{ error }}</p>")
        .expect("template parses");
    t
}

fn is_html(p: &Page) -> bool {
    matches!(p.content_type, ContentType::Html)
}

#[test]
fn status_codes_as_text() {
    assert_eq!(status_text(404), "404");
    assert_eq!(status_text(100), "100");
    assert_eq!(status_text(500), "500");
    assert_eq!(status_text(999), "999");
}

fn render(registry: &tera::Tera, bindings: &[(String, String)]) -> Option<String> {
    let mut context = tera::Context::new();
    for (key, value) in bindings {
        context.insert(key.as_str(), value);
    }
    registry.render("error.html", &context).ok()
}

#[test]
fn not_found_page_renders_template() {
    let t = registry_with_error_page();
    let p = not_found_page(render(&t, &not_found_bindings()));
    assert_eq!(p.status, 404);
    assert!(is_html(&p));
    assert!(p.body.contains("Page not found"));
    assert!(p.body.contains("404"));
    assert_eq!(p.body, "<h1>404</h1><p>Page not found</p>");
}

#[test]
fn missing_template_falls_back_to_plain_text() {
    let t = tera::Tera::default();
    let p = error_page_from(404, "Page not found", render(&t, &error_bindings(404, "Page not found")));
    assert_eq!(p.status, 404);
    assert!(matches!(p.content_type, ContentType::PlainText));
    assert_eq!(p.body, "Page not found");
}

#[test]
fn broken_template_falls_back_to_plain_text() {
    let mut t = tera::Tera::default();
    t.add_raw_template("error.html", "{{ missing_variable }}").expect("template parses");
    let p = not_found_page(render(&t, &not_found_bindings()));
    assert_eq!(p.status, 404);
    assert!(matches!(p.content_type, ContentType::PlainText));
    assert_eq!(p.body, "Page not found");
}

#[test]
fn rendering_twice_gives_the_same_bytes() {
    let t = registry_with_error_page();
    let a = error_page_from(503, "Busy", render(&t, &error_bindings(503, "Busy")));
    let b = error_page_from(503, "Busy", render(&t, &error_bindings(503, "Busy")));
    assert_eq!(a.body, b.body);
    assert_eq!(a.body, "<h1>503</h1><p>Busy</p>");
}

#[test]
fn error_page_keeps_status() {
    let p = error_page_from(418, "teapot", Some("<b>t</b>".to_string()));
    assert_eq!(p.status, 418);
    assert!(is_html(&p));
    assert_eq!(p.body, "<b>t</b>");
    let q = error_page_from(418, "teapot", None);
    assert!(matches!(q.content_type, ContentType::PlainText));
    assert_eq!(q.body, "teapot");
}

#[test]
fn index_outcomes() {
    let ok = index_page(Ok("<ul></ul>".to_string()));
    assert_eq!(ok.status, 200);
    assert!(is_html(&ok));
    assert_eq!(ok.body, "<ul></ul>");
    let bad = index_page(Err(IndexFailure::Template));
    assert_eq!(bad.status, 500);
    assert!(matches!(bad.content_type, ContentType::PlainText));
    assert_eq!(bad.body, "Template error");
    let unread = index_page(Err(IndexFailure::Projects));
    assert_eq!(unread.status, 500);
    assert_eq!(unread.body, "Project list unavailable");
}

#[test]
fn error_page_bindings() {
    assert_eq!(
        error_bindings(404, "Page not found"),
        vec![
            ("error".to_string(), "Page not found".to_string()),
            ("status_code".to_string(), "404".to_string()),
        ]
    );
}

#[test]
fn not_found_without_render_is_plain_text() {
    let p = not_found_page(None);
    assert_eq!(p.status, 404);
    assert!(matches!(p.content_type, ContentType::PlainText));
    assert_eq!(p.body, "Page not found");
    let q = not_found_page(Some("<p>gone</p>".to_string()));
    assert!(is_html(&q));
    assert_eq!(q.body, "<p>gone</p>");
}
