use easi_publish::{locate, one_based_location, Diagnostic, Hint, PublishError, Severity};

fn diag(file: Option<&str>, line: Option<usize>, column: Option<usize>) -> Diagnostic {
    Diagnostic {
        severity: Severity::Error,
        message: "expected expression".to_owned(),
        file: file.map(str::to_owned),
        line,
        column,
        hints: Vec::new(),
    }
}

#[test]
fn severity_words() {
    assert_eq!(Severity::Error.as_str(), "error");
    assert_eq!(Severity::Warning.to_string(), "warning");
}

#[test]
fn diagnostic_display_carries_location() {
    let d = diag(Some("main.typ"), Some(2), Some(10));
    assert_eq!(d.to_string(), "main.typ:2:10: error: expected expression");
    assert!(d.to_string().contains("main.typ:"));
}

#[test]
fn diagnostic_display_with_partial_location() {
    assert_eq!(diag(Some("main.typ"), Some(7), None).to_string(), "main.typ:7: error: expected expression");
    assert_eq!(diag(Some("main.typ"), None, Some(3)).to_string(), "main.typ: error: expected expression");
    assert_eq!(diag(None, Some(1), Some(1)).to_string(), "error: expected expression");
}

#[test]
fn diagnostic_display_lists_hints() {
    let mut d = diag(Some("main.typ"), Some(12), Some(1));
    d.severity = Severity::Warning;
    d.hints.push(Hint {
        message: "try adding a value".to_owned(),
        file: None,
        line: None,
        column: None,
    });
    d.hints.push(Hint {
        message: "declared here".to_owned(),
        file: Some("lib.typ".to_owned()),
        line: Some(305),
        column: Some(0),
    });
    assert_eq!(
        d.to_string(),
        "main.typ:12:1: warning: expected expression\n  hint: try adding a value\n  hint: lib.typ:305:0: declared here"
    );
}

#[test]
fn hint_display() {
    let h = Hint {
        message: "m".to_owned(),
        file: Some("f.typ".to_owned()),
        line: Some(1000),
        column: None,
    };
    assert_eq!(h.to_string(), "f.typ:1000: m");
}

#[test]
fn error_messages() {
    assert_eq!(
        PublishError::InvalidTemplate("no template registered for key 'x'".to_owned()).to_string(),
        "Invalid template: no template registered for key 'x'"
    );
    assert_eq!(PublishError::InvalidStandards("bad".to_owned()).to_string(), "Invalid PDF standards: bad");
    assert_eq!(PublishError::Image("broken".to_owned()).to_string(), "Image processing failed: broken");
    assert_eq!(PublishError::Timeout.to_string(), "render exceeded the configured deadline");
    let io = std::io::Error::new(std::io::ErrorKind::NotFound, "no such file");
    assert_eq!(PublishError::Io(io).to_string(), "IO error: no such file");
    let json = serde_json::from_str::<serde_json::Value>("{").unwrap_err();
    assert!(PublishError::InvalidJson(json).to_string().starts_with("Invalid JSON data: "));
}

#[test]
fn compilation_error_lists_diagnostics() {
    let err = PublishError::Compilation(vec![
        diag(Some("main.typ"), Some(2), Some(10)),
        diag(None, None, None),
    ]);
    assert_eq!(
        err.to_string(),
        "Typst compilation failed:\nmain.typ:2:10: error: expected expression\nerror: expected expression"
    );
    assert_eq!(PublishError::Export(vec![]).to_string(), "PDF export failed:\n");
    assert_eq!(
        PublishError::HtmlExport(vec![diag(None, None, None)]).to_string(),
        "HTML export failed:\nerror: expected expression"
    );
}

#[test]
fn locations_become_one_based() {
    assert_eq!(one_based_location(None, Some((3, 4))), (None, None, None));
    assert_eq!(
        one_based_location(Some("main.typ".to_owned()), None),
        (Some("main.typ".to_owned()), None, None)
    );
    assert_eq!(
        one_based_location(Some("main.typ".to_owned()), Some((1, 0))),
        (Some("main.typ".to_owned()), Some(2), Some(1))
    );
}

#[test]
fn locate_counts_lines_and_characters_from_one() {
    let file = || Some("main.typ".to_owned());
    assert_eq!(locate(file(), Some("a\nbc"), Some(0)), (file(), Some(1), Some(1)));
    assert_eq!(locate(file(), Some("a\nbc"), Some(3)), (file(), Some(2), Some(2)));
    // Columns count characters, not bytes.
    assert_eq!(locate(file(), Some("\u{e9}x"), Some(2)), (file(), Some(1), Some(2)));
    // `\r\n` is one line break.
    assert_eq!(locate(file(), Some("a\r\nb"), Some(3)), (file(), Some(2), Some(1)));
}

#[test]
fn locate_keeps_what_could_be_resolved() {
    let file = || Some("main.typ".to_owned());
    assert_eq!(locate(None, Some("abc"), Some(1)), (None, None, None));
    assert_eq!(locate(file(), None, Some(1)), (file(), None, None));
    assert_eq!(locate(file(), Some("abc"), None), (file(), None, None));
    // Past the end of the text.
    assert_eq!(locate(file(), Some("abc"), Some(9)), (file(), None, None));
}
