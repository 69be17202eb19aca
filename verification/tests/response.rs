use easi_publish::{sanitize_filename, HtmlResponse, PdfResponse, PublishError, PublishErrorResponse};

#[test]
fn sanitize_keeps_safe_characters() {
    assert_eq!(sanitize_filename("invoice-2024_01.pdf"), "invoice-2024_01.pdf");
    assert_eq!(sanitize_filename("my report (1).pdf"), "my_report__1_.pdf");
    assert_eq!(sanitize_filename("a\"b\r\nc"), "a_b__c");
    assert_eq!(sanitize_filename("résumé.pdf"), "r_sum_.pdf");
    assert_eq!(sanitize_filename(""), "");
}

#[test]
fn sanitize_is_idempotent() {
    let once = sanitize_filename("../../etc/passwd; rm -rf");
    assert_eq!(once, ".._.._etc_passwd__rm_-rf");
    assert_eq!(sanitize_filename(&once), once);
}

#[test]
fn pdf_response_defaults_to_attachment() {
    let r = PdfResponse::new(b"%PDF-1.7".to_vec());
    assert_eq!(r.status(), 200);
    assert_eq!(r.content_type(), "application/pdf");
    assert_eq!(r.content_disposition(), "attachment");
    assert_eq!(r.into_body(), b"%PDF-1.7".to_vec());
}

#[test]
fn pdf_response_filename_is_sanitized() {
    let r = PdfResponse::new(vec![]).filename("invoice 7.pdf".to_owned());
    assert_eq!(r.content_disposition(), "attachment; filename=\"invoice_7.pdf\"");
}

#[test]
fn pdf_response_last_call_wins() {
    let r = PdfResponse::new(vec![]).filename("a.pdf".to_owned()).inline();
    assert_eq!(r.content_disposition(), "inline");
    let r = PdfResponse::new(vec![]).inline().filename("a.pdf".to_owned());
    assert_eq!(r.content_disposition(), "attachment; filename=\"a.pdf\"");
}

#[test]
fn html_response_is_inline_by_default() {
    let r = HtmlResponse::new("<html></html>".to_owned());
    assert_eq!(r.status(), 200);
    assert_eq!(r.content_type(), "text/html; charset=utf-8");
    assert_eq!(r.content_disposition(), None);
    assert_eq!(r.into_body(), "<html></html>");
}

#[test]
fn html_response_filename_makes_a_download() {
    let r = HtmlResponse::new(String::new()).filename("page/1.html".to_owned());
    assert_eq!(r.content_disposition(), Some("attachment; filename=\"page_1.html\"".to_owned()));
}

#[test]
fn error_response_is_a_server_error() {
    let r = PublishErrorResponse::from(PublishError::Timeout);
    assert_eq!(r.status(), 500);
    assert_eq!(r.content_type(), "application/json");
    assert_eq!(r.to_string(), "render exceeded the configured deadline");
}

#[test]
fn error_body_never_reveals_the_error() {
    let body = r#"{"error":"rendering failed"}"#;
    let timeout = PublishErrorResponse::from(PublishError::Timeout);
    let secret = PublishErrorResponse::from(PublishError::InvalidTemplate("/etc/secret".to_owned()));
    assert_eq!(timeout.body(), body);
    assert_eq!(secret.body(), body);
    let parsed: serde_json::Value = serde_json::from_str(&secret.body()).unwrap();
    assert_eq!(parsed["error"], "rendering failed");
}
