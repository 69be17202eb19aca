use easi_publish::{PdfConfig, PreparedTemplate, PublishError, Renderer, SharedFonts, HtmlConfig};

#[test]
fn registered_templates_are_found_by_key() {
    let mut renderer = Renderer::new(SharedFonts::embedded_only());
    renderer.register_template("hello", PreparedTemplate::from_memory("Hello from the facade".to_owned(), None));
    let t = renderer.lookup("hello").ok().unwrap();
    assert_eq!(t.source().text(), "Hello from the facade");

    // Unknown key is an error, not a panic.
    let err = renderer.lookup("missing").err().unwrap();
    assert!(matches!(err, PublishError::InvalidTemplate(_)), "got {err:?}");
}

#[test]
fn missing_key_message_names_the_key() {
    let renderer = Renderer::new(SharedFonts::embedded_only());
    match renderer.lookup("invoice").err().unwrap() {
        PublishError::InvalidTemplate(msg) => assert_eq!(msg, "no template registered for key 'invoice'"),
        other => panic!("got {other:?}"),
    }
}

#[test]
fn re_registering_replaces_the_template() {
    let mut renderer = Renderer::new(SharedFonts::embedded_only());
    renderer.register_template("a", PreparedTemplate::from_memory("one".to_owned(), None));
    renderer.register_template("b", PreparedTemplate::from_memory("two".to_owned(), None));
    renderer.register_template("a", PreparedTemplate::from_memory("three".to_owned(), None));
    assert_eq!(renderer.lookup("a").ok().unwrap().source().text(), "three");
    assert_eq!(renderer.lookup("b").ok().unwrap().source().text(), "two");
}

#[test]
fn renderer_settings() {
    let renderer = Renderer::new(SharedFonts::embedded_only());
    assert!(renderer.limiter().is_none());
    assert!(renderer.deadline().is_none());
    let renderer = renderer
        .with_concurrency_limit(2)
        .with_deadline(std::time::Duration::from_secs(30))
        .with_default_pdf_config(PdfConfig::new().tagged(false))
        .with_default_html_config(HtmlConfig::new().pretty(true));
    assert_eq!(renderer.limiter().as_ref().unwrap().available_permits(), 2);
    assert_eq!(renderer.deadline(), Some(std::time::Duration::from_secs(30)));
    assert!(renderer.html_config().is_pretty());
    assert!(renderer.pdf_config().standards_list().is_empty());
}

#[test]
fn shared_fonts_hold_the_embedded_fonts() {
    let fonts = SharedFonts::embedded_only();
    let copy = fonts.clone();
    assert!(std::sync::Arc::ptr_eq(fonts.store(), copy.store()));
    assert!(fonts.store().font(0).is_some());
}

#[test]
fn evict_cache_does_not_panic() {
    easi_publish::evict_cache(10);
    easi_publish::evict_cache(0);
}
