//! Diagnostics and the crate's error type, with their human-readable text.

use vstd::prelude::*;

use crate::text::{decimal, joined, push_decimal, join_strings};

verus! {

#[verifier::external_type_specification]
#[verifier::external_body]
pub struct ExIoError(std::io::Error);

#[verifier::external_type_specification]
#[verifier::external_body]
pub struct ExJsonError(serde_json::Error);

/// Severity of a compilation/export [`Diagnostic`].
#[derive(Debug, Clone, Copy, PartialEq, Eq, Structural)]
pub enum Severity {
    /// A hard error: compilation/export failed.
    Error,
    /// A warning: surfaced alongside errors when present.
    Warning,
}

/// The word a severity is displayed as.
pub open spec fn severity_text(s: Severity) -> Seq<char> {
    match s {
        Severity::Error => "error"@,
        Severity::Warning => "warning"@,
    }
}

impl Severity {
    /// The severity as displayed: `"error"` or `"warning"`.
    pub fn as_str(&self) -> (r: &'static str)
        ensures
            r@ == severity_text(*self),
    {
        match self {
            Severity::Error => "error",
            Severity::Warning => "warning",
        }
    }

    /// The severity as an owned string (what `Display` shows).
    pub fn to_string(&self) -> (r: String)
        ensures
            r@ == severity_text(*self),
    {
        String::from_str(self.as_str())
    }
}

/// The view of an optional string.
pub open spec fn opt_text(o: Option<String>) -> Option<Seq<char>> {
    match o {
        Some(s) => Some(s@),
        None => None,
    }
}

/// The location prefix shown before a message: nothing without a file;
/// otherwise `file`, then `:line` when the line is known, then `:column` when
/// both line and column are known, then `": "`.
pub open spec fn location_prefix(file: Option<Seq<char>>, line: Option<usize>, column: Option<usize>) -> Seq<char> {
    match file {
        None => Seq::empty(),
        Some(f) => f + match line {
            None => Seq::empty(),
            Some(l) => ":"@ + decimal(l as nat) + match column {
                None => Seq::empty(),
                Some(c) => ":"@ + decimal(c as nat),
            },
        } + ": "@,
    }
}

fn push_location(s: &mut String, file: &Option<String>, line: Option<usize>, column: Option<usize>)
    ensures
        final(s)@ == old(s)@ + location_prefix(opt_text(*file), line, column),
{
    match file {
        None => {
            assert(final(s)@ =~= old(s)@ + location_prefix(opt_text(*file), line, column));
        },
        Some(f) => {
            s.append(f.as_str());
            match line {
                None => {},
                Some(l) => {
                    s.append(":");
                    push_decimal(s, l);
                    match column {
                        None => {},
                        Some(c) => {
                            s.append(":");
                            push_decimal(s, c);
                        },
                    }
                },
            }
            s.append(": ");
            assert(final(s)@ =~= old(s)@ + location_prefix(opt_text(*file), line, column));
        },
    }
}

/// A hint for resolving a [`Diagnostic`], with its own source location.
///
/// Most hints carry no span, in which case the location fields are `None`.
#[derive(Debug, Clone)]
pub struct Hint {
    /// The hint text.
    pub message: String,
    /// Source file the hint's span belongs to, if it carries a location.
    pub file: Option<String>,
    /// 1-based line number, if known.
    pub line: Option<usize>,
    /// 1-based column number, if known.
    pub column: Option<usize>,
}

/// How a hint is displayed: its location prefix, then its message.
pub open spec fn hint_text(h: Hint) -> Seq<char> {
    location_prefix(opt_text(h.file), h.line, h.column) + h.message@
}

impl Hint {
    /// The hint as displayed: `file:line:col: message`, with the location
    /// parts present as far as they are known.
    pub fn to_string(&self) -> (r: String)
        ensures
            r@ == hint_text(*self),
    {
        let mut s = String::new();
        push_location(&mut s, &self.file, self.line, self.column);
        s.append(self.message.as_str());
        s
    }
}

/// A single Typst diagnostic with its source location preserved.
///
/// Keeps the `file`, `line`, and `column` of the offending span (when Typst
/// attaches one) so callers can point template authors at the exact spot.
#[derive(Debug, Clone)]
pub struct Diagnostic {
    /// Error or warning.
    pub severity: Severity,
    /// Human-readable message.
    pub message: String,
    /// Source file the span belongs to, if the diagnostic carries a location.
    pub file: Option<String>,
    /// 1-based line number, if known.
    pub line: Option<usize>,
    /// 1-based column number, if known.
    pub column: Option<usize>,
    /// Typst's hints for resolving the issue, each with its own optional
    /// location.
    pub hints: Vec<Hint>,
}

/// The displayed hints of a diagnostic: each on its own line after `"  hint: "`.
pub open spec fn hints_text(hints: Seq<Hint>) -> Seq<char>
    decreases hints.len(),
{
    if hints.len() == 0 {
        Seq::empty()
    } else {
        hints_text(hints.drop_last()) + "\n  hint: "@ + hint_text(hints.last())
    }
}

/// How a diagnostic is displayed: location prefix, severity, message, hints.
pub open spec fn diagnostic_text(d: Diagnostic) -> Seq<char> {
    location_prefix(opt_text(d.file), d.line, d.column) + severity_text(d.severity) + ": "@
        + d.message@ + hints_text(d.hints@)
}

impl Diagnostic {
    /// The diagnostic as displayed:
    /// `file:line:col: severity: message`, followed by one
    /// `"\n  hint: ..."` line per hint.
    pub fn to_string(&self) -> (r: String)
        ensures
            r@ == diagnostic_text(*self),
    {
        let mut s = String::new();
        push_location(&mut s, &self.file, self.line, self.column);
        s.append(self.severity.as_str());
        s.append(": ");
        s.append(self.message.as_str());
        let ghost head = s@;
        let mut i: usize = 0;
        while i < self.hints.len()
            invariant
                i <= self.hints.len(),
                s@ == head + hints_text(self.hints@.take(i as int)),
            decreases self.hints.len() - i,
        {
            s.append("\n  hint: ");
            let h = self.hints[i].to_string();
            s.append(h.as_str());
            assert(self.hints@.take(i + 1).drop_last() =~= self.hints@.take(i as int));
            i = i + 1;
        }
        assert(self.hints@.take(self.hints.len() as int) =~= self.hints@);
        s
    }
}

/// The displayed diagnostics, in order.
pub open spec fn diagnostic_texts(ds: Seq<Diagnostic>) -> Seq<Seq<char>> {
    ds.map_values(|d: Diagnostic| diagnostic_text(d))
}

/// Displays each diagnostic and joins them with newlines.
fn diagnostics_joined(ds: &Vec<Diagnostic>) -> (r: String)
    ensures
        r@ == joined(diagnostic_texts(ds@), "\n"@),
{
    let mut lines: Vec<String> = Vec::new();
    let mut i: usize = 0;
    while i < ds.len()
        invariant
            i <= ds.len(),
            lines@.map_values(|l: String| l@) =~= diagnostic_texts(ds@.take(i as int)),
        decreases ds.len() - i,
    {
        let ghost prev = lines@;
        let t = ds[i].to_string();
        lines.push(t);
        assert(lines@.map_values(|l: String| l@) =~= prev.map_values(|l: String| l@).push(t@));
        assert(diagnostic_texts(ds@.take(i + 1)) =~= diagnostic_texts(ds@.take(i as int)).push(
            diagnostic_text(ds@[i as int]),
        ));
        i = i + 1;
    }
    assert(ds@.take(ds.len() as int) =~= ds@);
    join_strings(&lines, "\n")
}

/// Anything that can go wrong while turning a template + data into a PDF or
/// HTML document.
#[derive(Debug)]
pub enum PublishError {
    /// Reading the template or writing the output file failed.
    Io(std::io::Error),
    /// Typst compilation failed, carries the per-span diagnostics.
    Compilation(Vec<Diagnostic>),
    /// PDF export failed, carries the per-span diagnostics.
    Export(Vec<Diagnostic>),
    /// HTML export failed, carries the per-span diagnostics.
    HtmlExport(Vec<Diagnostic>),
    /// The supplied data could not be serialized to JSON.
    InvalidJson(serde_json::Error),
    /// The template or a render key was invalid (e.g. an unknown
    /// renderer key, a duplicate or colliding virtual file).
    InvalidTemplate(String),
    /// The requested PDF standards combination is invalid.
    InvalidStandards(String),
    /// An image could not be decoded or re-encoded.
    Image(String),
    /// An async render exceeded its configured deadline. The compile is not
    /// cancelled; its result is discarded.
    Timeout,
}

/// Convenience alias for `Result<T, PublishError>`.
pub type Result<T> = std::result::Result<T, PublishError>;

/// The message of an error whose text is fully determined by its contents
/// (every variant but `Io` and `InvalidJson`, whose text embeds the outside
/// error's own display).
pub open spec fn error_text(e: PublishError) -> Seq<char> {
    match e {
        PublishError::Compilation(ds) => "Typst compilation failed:\n"@ + joined(diagnostic_texts(ds@), "\n"@),
        PublishError::Export(ds) => "PDF export failed:\n"@ + joined(diagnostic_texts(ds@), "\n"@),
        PublishError::HtmlExport(ds) => "HTML export failed:\n"@ + joined(diagnostic_texts(ds@), "\n"@),
        PublishError::InvalidTemplate(m) => "Invalid template: "@ + m@,
        PublishError::InvalidStandards(m) => "Invalid PDF standards: "@ + m@,
        PublishError::Image(m) => "Image processing failed: "@ + m@,
        PublishError::Timeout => "render exceeded the configured deadline"@,
        PublishError::Io(_) => "IO error: "@,
        PublishError::InvalidJson(_) => "Invalid JSON data: "@,
    }
}

/// Display text of an I/O error (`std::io::Error`'s `Display`).
#[verifier::external_body]
fn io_error_message(e: &std::io::Error) -> String {
    e.to_string()
}

/// Display text of a JSON error (`serde_json::Error`'s `Display`).
#[verifier::external_body]
fn json_error_message(e: &serde_json::Error) -> String {
    e.to_string()
}

impl PublishError {
    /// The error as displayed. For `Io` and `InvalidJson` the text is the
    /// fixed prefix followed by the outside error's own message.
    pub fn to_string(&self) -> (r: String)
        ensures
            match *self {
                PublishError::Io(_) | PublishError::InvalidJson(_) =>
                    r@.len() >= error_text(*self).len()
                    && r@.subrange(0, error_text(*self).len() as int) == error_text(*self),
                _ => r@ == error_text(*self),
            },
    {
        match self {
            PublishError::Io(e) => {
                let mut s = String::from_str("IO error: ");
                let m = io_error_message(e);
                s.append(m.as_str());
                assert(s@.subrange(0, error_text(*self).len() as int) =~= error_text(*self));
                s
            },
            PublishError::InvalidJson(e) => {
                let mut s = String::from_str("Invalid JSON data: ");
                let m = json_error_message(e);
                s.append(m.as_str());
                assert(s@.subrange(0, error_text(*self).len() as int) =~= error_text(*self));
                s
            },
            PublishError::Compilation(ds) => {
                let s = String::from_str("Typst compilation failed:\n");
                s.concat(diagnostics_joined(ds).as_str())
            },
            PublishError::Export(ds) => {
                let s = String::from_str("PDF export failed:\n");
                s.concat(diagnostics_joined(ds).as_str())
            },
            PublishError::HtmlExport(ds) => {
                let s = String::from_str("HTML export failed:\n");
                s.concat(diagnostics_joined(ds).as_str())
            },
            PublishError::InvalidTemplate(m) => String::from_str("Invalid template: ").concat(m.as_str()),
            PublishError::InvalidStandards(m) => String::from_str("Invalid PDF standards: ").concat(m.as_str()),
            PublishError::Image(m) => String::from_str("Image processing failed: ").concat(m.as_str()),
            PublishError::Timeout => String::from_str("render exceeded the configured deadline"),
        }
    }
}

} // verus!

verus! {

/// A resolved source location as `(file, line, column)`, 1-based.
///
/// A diagnostic with no file has no location at all. With a file but no
/// 0-based position (the source or the span's range was unavailable), only
/// the file is kept. Otherwise the 0-based line and column become 1-based.
pub fn one_based_location(file: Option<String>, zero_based: Option<(usize, usize)>) -> (r: (
    Option<String>,
    Option<usize>,
    Option<usize>,
))
    requires
        zero_based matches Some((l, c)) ==> l < usize::MAX && c < usize::MAX,
    ensures
        file is None ==> r.0 is None && r.1 is None && r.2 is None,
        file is Some ==> r.0 == file && match zero_based {
            Some((l, c)) => r.1 == Some((l + 1) as usize) && r.2 == Some((c + 1) as usize),
            None => r.1 is None && r.2 is None,
        },
{
    match file {
        None => (None, None, None),
        Some(f) => match zero_based {
            Some((line, column)) => (Some(f), Some(line + 1), Some(column + 1)),
            None => (Some(f), None, None),
        },
    }
}

/// Typst's zero-based `(line, column)` of the byte index `offset` in `text`
/// (`Lines::byte_to_line_column`), or `None` when the offset lies past the
/// end of the text or inside a character. Lines break at `\n`, `\r\n`, a
/// lone `\r`, the vertical tab, the form feed, the next-line character
/// (U+0085) and the Unicode line and paragraph separators; the column counts
/// the characters between the line's start and the offset.
pub uninterp spec fn text_line_column(text: Seq<char>, offset: usize) -> Option<(usize, usize)>;

/// Typst's line index over `text` (`Lines::new`), asked for the line and
/// column of `offset` (`byte_to_line_column`).
///
/// Claims: the result is named by [`text_line_column`]; offset 0 is line 0,
/// column 0; and a position found lies within the text, so neither index
/// exceeds the offset, which is at most `isize::MAX`.
#[verifier::external_body]
fn line_column_at(text: &str, offset: usize) -> (r: Option<(usize, usize)>)
    ensures
        r == text_line_column(text@, offset),
        offset == 0 ==> r == Some((0usize, 0usize)),
        r matches Some((l, c)) ==> l <= offset && c <= offset && offset <= isize::MAX,
{
    typst::syntax::Lines::new(text).byte_to_line_column(offset)
}

/// The zero-based position of `offset` in `text`, when both are known.
pub open spec fn text_position(text: Option<&str>, offset: Option<usize>) -> Option<(usize, usize)> {
    match (text, offset) {
        (Some(t), Some(o)) => text_line_column(t@, o),
        _ => None,
    }
}

/// The 1-based `(file, line, column)` a diagnostic is reported at, from what
/// could be resolved of its span: the file's name, the file's source text
/// and the byte offset the span starts at.
///
/// Without a file there is no location; without the text or the offset, or
/// when the offset does not fall on a position in the text, only the file is
/// kept. Lines and columns are counted as Typst's line index counts them.
pub fn locate(file: Option<String>, text: Option<&str>, offset: Option<usize>) -> (r: (
    Option<String>,
    Option<usize>,
    Option<usize>,
))
    ensures
        file is None ==> r.0 is None && r.1 is None && r.2 is None,
        file is Some ==> r.0 == file && match text_position(text, offset) {
            Some((l, c)) => r.1 == Some((l + 1) as usize) && r.2 == Some((c + 1) as usize),
            None => r.1 is None && r.2 is None,
        },
        file is Some && text is Some && offset == Some(0usize) ==> r.1 == Some(1usize) && r.2 == Some(
            1usize,
        ),
{
    let position = match (text, offset) {
        (Some(t), Some(o)) => line_column_at(t, o),
        _ => None,
    };
    one_based_location(file, position)
}

} // verus!
