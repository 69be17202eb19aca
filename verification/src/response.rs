//! What the HTTP responses for rendered documents carry: status, headers and
//! body, as plain values. Sending them through a web framework is left to the
//! caller.

use vstd::prelude::*;

use crate::error::PublishError;
use crate::util::{sanitize_filename, sanitized};

verus! {

/// The `Content-Disposition` value that downloads a file under the sanitized
/// form of `name`: `attachment; filename="<sanitized name>"`.
pub open spec fn attachment_text(name: Seq<char>) -> Seq<char> {
    "attachment; filename=\""@ + sanitized(name) + "\""@
}

fn attachment_disposition(name: &String) -> (r: String)
    ensures
        r@ == attachment_text(name@),
{
    let mut s = String::from_str("attachment; filename=\"");
    let clean = sanitize_filename(name.as_str());
    s.append(clean.as_str());
    s.append("\"");
    s
}

/// The body of every error response.
pub open spec fn error_body_text() -> Seq<char> {
    "{\"error\":\"rendering failed\"}"@
}

/// Wrapper around a [`PublishError`] that answers with a server error.
///
/// The response is `500` with a JSON error body (`{"error":"rendering failed"}`,
/// which never reveals the error itself).
pub struct PublishErrorResponse(pub PublishError);

impl From<PublishError> for PublishErrorResponse {
    fn from(err: PublishError) -> Self {
        PublishErrorResponse(err)
    }
}

impl vstd::std_specs::convert::FromSpecImpl<PublishError> for PublishErrorResponse {
    open spec fn obeys_from_spec() -> bool {
        true
    }

    open spec fn from_spec(err: PublishError) -> Self {
        PublishErrorResponse(err)
    }
}

impl PublishErrorResponse {
    /// The response status: `500 Internal Server Error`.
    pub fn status(&self) -> (r: u16)
        ensures
            r == 500,
    {
        500
    }

    /// The response content type: `application/json`.
    pub fn content_type(&self) -> (r: &'static str)
        ensures
            r@ == "application/json"@,
    {
        "application/json"
    }

    /// The JSON body, `{"error":"rendering failed"}`: the same for every
    /// error, so the response never reveals what went wrong.
    pub fn body(&self) -> (r: String)
        ensures
            r@ == error_body_text(),
    {
        String::from_str("{\"error\":\"rendering failed\"}")
    }

    /// The wrapped error's message.
    pub fn to_string(&self) -> (r: String)
        ensures
            !(self.0 is Io || self.0 is InvalidJson) ==> r@ == crate::error::error_text(self.0),
    {
        self.0.to_string()
    }
}

/// An HTML response.
///
/// `Content-Type: text/html; charset=utf-8`. Inline (rendered in the browser)
/// by default; [`filename`](Self::filename) sends it as a download instead.
pub struct HtmlResponse {
    html: String,
    filename: Option<String>,
}

impl HtmlResponse {
    /// The HTML document.
    pub closed spec fn html_spec(self) -> Seq<char> {
        self.html@
    }

    /// The download filename, if one was set.
    pub closed spec fn filename_spec(self) -> Option<Seq<char>> {
        crate::error::opt_text(self.filename)
    }

    /// Create an `HtmlResponse` from an HTML string, shown inline.
    pub fn new(html: String) -> (r: Self)
        ensures
            r.html_spec() == html@,
            r.filename_spec() is None,
    {
        HtmlResponse { html, filename: None }
    }

    /// Send the HTML as a download with the given filename rather than
    /// rendering it inline.
    pub fn filename(self, name: String) -> (r: Self)
        ensures
            r.html_spec() == self.html_spec(),
            r.filename_spec() == Some(name@),
    {
        HtmlResponse { html: self.html, filename: Some(name) }
    }

    /// The response status: `200 OK`.
    pub fn status(&self) -> (r: u16)
        ensures
            r == 200,
    {
        200
    }

    /// The response content type: `text/html; charset=utf-8`.
    pub fn content_type(&self) -> (r: &'static str)
        ensures
            r@ == "text/html; charset=utf-8"@,
    {
        "text/html; charset=utf-8"
    }

    /// The `Content-Disposition` header: none when inline (the default),
    /// `attachment; filename="<sanitized name>"` once a filename is set.
    pub fn content_disposition(&self) -> (r: Option<String>)
        ensures
            crate::error::opt_text(r) == match self.filename_spec() {
                None => None,
                Some(name) => Some(attachment_text(name)),
            },
    {
        match &self.filename {
            None => None,
            Some(name) => Some(attachment_disposition(name)),
        }
    }

    /// The HTML body.
    pub fn into_body(self) -> (r: String)
        ensures
            r@ == self.html_spec(),
    {
        self.html
    }
}

/// The `Content-Disposition` of a PDF response: `inline` when inline,
/// otherwise an attachment, named after the sanitized filename if one is
/// set.
pub open spec fn pdf_disposition_text(inline: bool, filename: Option<Seq<char>>) -> Seq<char> {
    if inline {
        "inline"@
    } else {
        match filename {
            Some(name) => attachment_text(name),
            None => "attachment"@,
        }
    }
}

/// A PDF response.
///
/// `Content-Type: application/pdf` and a configurable `Content-Disposition`
/// (attachment by default; [`inline`](Self::inline) to display in-browser).
pub struct PdfResponse {
    bytes: Vec<u8>,
    filename: Option<String>,
    inline: bool,
}

impl PdfResponse {
    /// The PDF document.
    pub closed spec fn bytes_spec(self) -> Seq<u8> {
        self.bytes@
    }

    /// The download filename, if one was set.
    pub closed spec fn filename_spec(self) -> Option<Seq<char>> {
        crate::error::opt_text(self.filename)
    }

    /// Whether the PDF is displayed inline.
    pub closed spec fn inline_spec(self) -> bool {
        self.inline
    }

    /// Create a `PdfResponse` from raw PDF bytes, sent as an attachment.
    pub fn new(bytes: Vec<u8>) -> (r: Self)
        ensures
            r.bytes_spec() == bytes@,
            r.filename_spec() is None,
            !r.inline_spec(),
    {
        PdfResponse { bytes, filename: None, inline: false }
    }

    /// Set the download filename (this also turns inline display off).
    pub fn filename(self, name: String) -> (r: Self)
        ensures
            r.bytes_spec() == self.bytes_spec(),
            r.filename_spec() == Some(name@),
            !r.inline_spec(),
    {
        PdfResponse { bytes: self.bytes, filename: Some(name), inline: false }
    }

    /// Display inline in the browser rather than downloading.
    pub fn inline(self) -> (r: Self)
        ensures
            r.bytes_spec() == self.bytes_spec(),
            r.filename_spec() == self.filename_spec(),
            r.inline_spec(),
    {
        PdfResponse { bytes: self.bytes, filename: self.filename, inline: true }
    }

    /// The response status: `200 OK`.
    pub fn status(&self) -> (r: u16)
        ensures
            r == 200,
    {
        200
    }

    /// The response content type: `application/pdf`.
    pub fn content_type(&self) -> (r: &'static str)
        ensures
            r@ == "application/pdf"@,
    {
        "application/pdf"
    }

    /// The `Content-Disposition` header value.
    pub fn content_disposition(&self) -> (r: String)
        ensures
            r@ == pdf_disposition_text(self.inline_spec(), self.filename_spec()),
    {
        if self.inline {
            String::from_str("inline")
        } else {
            match &self.filename {
                Some(name) => attachment_disposition(name),
                None => String::from_str("attachment"),
            }
        }
    }

    /// The PDF body.
    pub fn into_body(self) -> (r: Vec<u8>)
        ensures
            r@ == self.bytes_spec(),
    {
        self.bytes
    }
}

/// Of `filename` and `inline`, the later call decides the disposition: a
/// filename set after `inline` turns the download back on, and `inline` after
/// a filename displays the PDF inline.
pub proof fn lemma_pdf_last_call_wins(name: Seq<char>, filename_before: Option<Seq<char>>)
    ensures
        pdf_disposition_text(false, Some(name)) == attachment_text(name),
        pdf_disposition_text(true, Some(name)) == "inline"@,
        pdf_disposition_text(true, filename_before) == "inline"@,
{
}

} // verus!
