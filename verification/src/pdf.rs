//! Settings of the PDF output and how they map onto typst's export options.

use vstd::prelude::*;

use typst::layout::PageRanges;
use typst_pdf::PdfStandard as TypstStandard;
use typst_pdf::{PdfStandards, Timestamp};

use crate::clock::{utc_now_fields, valid_date, valid_time, Clock};
use crate::error::{PublishError, Result};

use crate::util::copy_slice;

verus! {

#[verifier::external_type_specification]
#[verifier::external_body]
pub struct ExTimestamp(Timestamp);

#[verifier::external_type_specification]
#[verifier::external_body]
pub struct ExPageRanges(PageRanges);

#[verifier::external_type_specification]
#[verifier::external_body]
pub struct ExPdfStandards(PdfStandards);

#[verifier::external_type_specification]
#[verifier::external_body]
pub struct ExTypstStandard(TypstStandard);

/// `PageRanges::clone`: a copy of the ranges (a derived clone of a vector of
/// page ranges), equal to the original.
pub assume_specification[ <PageRanges as Clone>::clone ](r: &PageRanges) -> (c: PageRanges)
    ensures
        c == *r,
;

/// A PDF standard that Typst can enforce conformance with.
#[allow(non_camel_case_types)]
#[derive(Debug, Clone, Copy, PartialEq, Eq, Structural)]
pub enum PdfStandard {
    /// PDF 1.4.
    V_1_4,
    /// PDF 1.5.
    V_1_5,
    /// PDF 1.6.
    V_1_6,
    /// PDF 1.7.
    V_1_7,
    /// PDF 2.0.
    V_2_0,
    /// PDF/A-1b.
    A_1b,
    /// PDF/A-1a.
    A_1a,
    /// PDF/A-2b.
    A_2b,
    /// PDF/A-2u.
    A_2u,
    /// PDF/A-2a.
    A_2a,
    /// PDF/A-3b.
    A_3b,
    /// PDF/A-3u.
    A_3u,
    /// PDF/A-3a.
    A_3a,
    /// PDF/A-4.
    A_4,
    /// PDF/A-4f.
    A_4f,
    /// PDF/A-4e.
    A_4e,
    /// PDF/UA-1.
    Ua_1,
}

/// The same standard as typst names it (one variant for each).
#[verifier::external_body]
fn to_typst_standard(s: PdfStandard) -> TypstStandard {
    match s {
        PdfStandard::V_1_4 => TypstStandard::V_1_4, PdfStandard::V_1_5 => TypstStandard::V_1_5, PdfStandard::V_1_6 => TypstStandard::V_1_6, PdfStandard::V_1_7 => TypstStandard::V_1_7,
        PdfStandard::V_2_0 => TypstStandard::V_2_0, PdfStandard::A_1b => TypstStandard::A_1b, PdfStandard::A_1a => TypstStandard::A_1a, PdfStandard::A_2b => TypstStandard::A_2b,
        PdfStandard::A_2u => TypstStandard::A_2u, PdfStandard::A_2a => TypstStandard::A_2a, PdfStandard::A_3b => TypstStandard::A_3b, PdfStandard::A_3u => TypstStandard::A_3u,
        PdfStandard::A_3a => TypstStandard::A_3a, PdfStandard::A_4 => TypstStandard::A_4, PdfStandard::A_4f => TypstStandard::A_4f, PdfStandard::A_4e => TypstStandard::A_4e,
        PdfStandard::Ua_1 => TypstStandard::Ua_1,
    }
}

/// Typst's verdict on a list of standards (`PdfStandards::new`): the
/// validated standards when they are compatible, otherwise the message and
/// hints of its error.
pub uninterp spec fn standards_verdict(list: Seq<PdfStandard>) -> std::result::Result<PdfStandards, (Seq<char>, Seq<Seq<char>>)>;

/// Why typst rejects a list of standards, or `None` when it accepts it.
pub open spec fn standards_rejection(list: Seq<PdfStandard>) -> Option<(Seq<char>, Seq<Seq<char>>)> {
    match standards_verdict(list) {
        Ok(_) => None,
        Err(e) => Some(e),
    }
}

/// The views of a list of strings.
pub open spec fn texts(list: Seq<String>) -> Seq<Seq<char>> {
    list.map_values(|s: String| s@)
}

/// Validates a list of standards for compatibility (`PdfStandards::new`),
/// handing back the message and hints of typst's error on rejection.
#[verifier::external_body]
fn validate_standards(list: &Vec<PdfStandard>) -> (r: std::result::Result<PdfStandards, (String, Vec<String>)>)
    ensures
        r matches Ok(st) ==> (standards_verdict(list@) matches Ok(v) && v == st),
        r matches Err((m, hs)) ==> (standards_verdict(list@) matches Err(e) && e == (m@, texts(hs@))),
{
    let typed: Vec<TypstStandard> = list.iter().map(|s| to_typst_standard(*s)).collect();
    PdfStandards::new(&typed).map_err(|e| {
        (e.message().to_string(), e.hints().iter().map(|h| h.to_string()).collect())
    })
}

/// Typst's default standards (PDF 1.7, `PdfStandards::default`).
#[verifier::external_body]
fn default_standards() -> PdfStandards {
    PdfStandards::default()
}

/// Typst's UTC timestamp at the given date and time
/// (`Datetime::from_ymd_hms`, then `Timestamp::new_utc`), if that date and
/// time exist.
pub uninterp spec fn utc_timestamp_of(year: i32, month: u8, day: u8, hour: u8, minute: u8, second: u8) -> Option<Timestamp>;

/// A UTC timestamp at the given date and time (`Datetime::from_ymd_hms`, then
/// `Timestamp::new_utc`), which exists exactly for valid dates and times.
#[verifier::external_body]
fn utc_timestamp(year: i32, month: u8, day: u8, hour: u8, minute: u8, second: u8) -> (r: Option<Timestamp>)
    ensures
        r == utc_timestamp_of(year, month, day, hour, minute, second),
        r is Some <==> (valid_date(year, month, day) && valid_time(hour, minute, second)),
{
    typst::foundations::Datetime::from_ymd_hms(year, month, day, hour, minute, second).map(Timestamp::new_utc)
}

/// A field narrowed to typst's width, or `fallback` when it does not fit.
pub open spec fn narrow_or(v: u32, fallback: u8) -> u8 {
    if v <= 255 { v as u8 } else { fallback }
}

/// Whether typst can represent the UTC date and time given in chrono's
/// field widths, after narrowing (see [`PdfConfig::timestamp_utc_at`]).
pub open spec fn utc_fields_valid(year: i32, month: u32, day: u32, hour: u32, minute: u32, second: u32) -> bool {
    valid_date(year, narrow_or(month, 1), narrow_or(day, 1))
        && valid_time(narrow_or(hour, 0), narrow_or(minute, 0), narrow_or(second, 0))
}

/// Configuration for PDF generation. Uses builder pattern.
///
/// All fields have sensible defaults (PDF 1.7, tagged, auto ident,
/// system-local clock).
#[derive(Clone)]
pub struct PdfConfig {
    ident: Option<String>,
    creator: Option<String>,
    timestamp: Option<Timestamp>,
    page_ranges: Option<PageRanges>,
    standards: Vec<PdfStandard>,
    tagged: bool,
    pretty: bool,
    clock: Clock,
}

/// The message of an invalid-standards error: typst's message, then one
/// `"\n  hint: "` line per hint.
pub open spec fn standards_message(message: Seq<char>, hints: Seq<Seq<char>>) -> Seq<char>
    decreases hints.len(),
{
    if hints.len() == 0 {
        message
    } else {
        standards_message(message, hints.drop_last()) + "\n  hint: "@ + hints.last()
    }
}


impl PdfConfig {
    /// The fixed document identifier (`None`: derived from the content).
    pub closed spec fn ident_spec(self) -> Option<Seq<char>> {
        crate::error::opt_text(self.ident)
    }

    /// The creator string (`None`: typst's default).
    pub closed spec fn creator_spec(self) -> Option<Seq<char>> {
        crate::error::opt_text(self.creator)
    }

    /// The creation timestamp, if set.
    pub closed spec fn timestamp_spec(self) -> Option<Timestamp> {
        self.timestamp
    }

    /// The page ranges to export (`None`: all pages).
    pub closed spec fn page_ranges_spec(self) -> Option<PageRanges> {
        self.page_ranges
    }

    /// The standards to conform to (empty: typst's default, PDF 1.7).
    pub closed spec fn standards_spec(self) -> Seq<PdfStandard> {
        self.standards@
    }

    /// Whether the PDF is tagged.
    pub closed spec fn tagged_spec(self) -> bool {
        self.tagged
    }

    /// Whether the PDF is pretty-printed.
    pub closed spec fn pretty_spec(self) -> bool {
        self.pretty
    }

    /// The clock behind `datetime.today()`.
    pub closed spec fn clock_spec(self) -> Clock {
        self.clock
    }

    /// `a` and `b` agree on every setting but possibly the ones marked.
    pub open spec fn agree_except(
        a: PdfConfig,
        b: PdfConfig,
        ident: bool,
        creator: bool,
        timestamp: bool,
        page_ranges: bool,
        standards: bool,
        tagged: bool,
        pretty: bool,
        clock: bool,
    ) -> bool {
        &&& (ident || a.ident_spec() == b.ident_spec())
        &&& (creator || a.creator_spec() == b.creator_spec())
        &&& (timestamp || a.timestamp_spec() == b.timestamp_spec())
        &&& (page_ranges || a.page_ranges_spec() == b.page_ranges_spec())
        &&& (standards || a.standards_spec() == b.standards_spec())
        &&& (tagged || a.tagged_spec() == b.tagged_spec())
        &&& (pretty || a.pretty_spec() == b.pretty_spec())
        &&& (clock || a.clock_spec() == b.clock_spec())
    }

    /// A config with the default settings (PDF 1.7, tagged, auto ident,
    /// system-local clock, no timestamp).
    pub fn new() -> (c: Self)
        ensures
            c.ident_spec() is None,
            c.creator_spec() is None,
            c.timestamp_spec() is None,
            c.page_ranges_spec() is None,
            c.standards_spec().len() == 0,
            c.tagged_spec(),
            !c.pretty_spec(),
            c.clock_spec() == Clock::SystemLocal,
    {
        PdfConfig {
            ident: None,
            creator: None,
            timestamp: None,
            page_ranges: None,
            standards: Vec::new(),
            tagged: true,
            pretty: false,
            clock: Clock::SystemLocal,
        }
    }

    /// Set a fixed document identifier (otherwise derived automatically from
    /// the content).
    pub fn ident(self, ident: String) -> (c: Self)
        ensures
            c.ident_spec() == Some(ident@),
            Self::agree_except(c, self, true, false, false, false, false, false, false, false),
    {
        PdfConfig { ident: Some(ident), ..self }
    }

    /// Set the document's creator string written into the PDF metadata
    /// (otherwise Typst fills in its own default).
    pub fn creator(self, creator: String) -> (c: Self)
        ensures
            c.creator_spec() == Some(creator@),
            Self::agree_except(c, self, false, true, false, false, false, false, false, false),
    {
        PdfConfig { creator: Some(creator), ..self }
    }

    /// Emit human-readable (un-minified) PDF output.
    pub fn pretty(self, pretty: bool) -> (c: Self)
        ensures
            c.pretty_spec() == pretty,
            Self::agree_except(c, self, false, false, false, false, false, false, true, false),
    {
        PdfConfig { pretty, ..self }
    }

    /// Set the document's creation timestamp.
    pub fn timestamp(self, ts: Timestamp) -> (c: Self)
        ensures
            c.timestamp_spec() == Some(ts),
            Self::agree_except(c, self, false, false, true, false, false, false, false, false),
    {
        PdfConfig { timestamp: Some(ts), ..self }
    }

    /// Set the creation timestamp to the given UTC date and time, given in
    /// chrono's field widths. A month or day too wide for typst's fields
    /// counts as 1, an hour, minute or second as 0. If typst cannot represent
    /// the result, the config is left unchanged.
    pub fn timestamp_utc_at(self, year: i32, month: u32, day: u32, hour: u32, minute: u32, second: u32) -> (c: Self)
        ensures
            utc_fields_valid(year, month, day, hour, minute, second) ==> c.timestamp_spec() == utc_timestamp_of(
                year,
                narrow_or(month, 1),
                narrow_or(day, 1),
                narrow_or(hour, 0),
                narrow_or(minute, 0),
                narrow_or(second, 0),
            ),
            utc_fields_valid(year, month, day, hour, minute, second) ==> c.timestamp_spec() is Some,
            !utc_fields_valid(year, month, day, hour, minute, second) ==> c.timestamp_spec() == self.timestamp_spec(),
            Self::agree_except(c, self, false, false, true, false, false, false, false, false),
    {
        let month: u8 = if month <= 255 { month as u8 } else { 1 };
        let day: u8 = if day <= 255 { day as u8 } else { 1 };
        let hour: u8 = if hour <= 255 { hour as u8 } else { 0 };
        let minute: u8 = if minute <= 255 { minute as u8 } else { 0 };
        let second: u8 = if second <= 255 { second as u8 } else { 0 };
        match utc_timestamp(year, month, day, hour, minute, second) {
            Some(ts) => PdfConfig { timestamp: Some(ts), ..self },
            None => self,
        }
    }

    /// Set the creation timestamp to the current UTC time. If typst cannot
    /// represent the current date (a year outside -9999..=9999), the config
    /// is left unchanged.
    pub fn timestamp_now_utc(self) -> (c: Self)
        ensures
            c.timestamp_spec() is Some || c.timestamp_spec() == self.timestamp_spec(),
            c.timestamp_spec() is Some ==> c.timestamp_spec() == self.timestamp_spec() || exists|
                year: i32,
                month: u8,
                day: u8,
                hour: u8,
                minute: u8,
                second: u8,
            |
                valid_date(year, month, day) && valid_time(hour, minute, second) && c.timestamp_spec()
                    == #[trigger] utc_timestamp_of(year, month, day, hour, minute, second),
            Self::agree_except(c, self, false, false, true, false, false, false, false, false),
    {
        let (year, month, day, hour, minute, second) = utc_now_fields();
        self.timestamp_utc_at(year, month, day, hour, minute, second)
    }

    /// Restrict output to specific page ranges (default: all pages).
    pub fn page_ranges(self, ranges: PageRanges) -> (c: Self)
        ensures
            c.page_ranges_spec() == Some(ranges),
            Self::agree_except(c, self, false, false, false, true, false, false, false, false),
    {
        PdfConfig { page_ranges: Some(ranges), ..self }
    }

    /// Set the PDF standards to conform to (e.g. PDF/A). Incompatible
    /// combinations are rejected at render time with
    /// [`PublishError::InvalidStandards`].
    pub fn standards(self, standards: &[PdfStandard]) -> (c: Self)
        ensures
            c.standards_spec() == standards@,
            Self::agree_except(c, self, false, false, false, false, true, false, false, false),
    {
        PdfConfig { standards: copy_slice(standards), ..self }
    }

    /// Target the common accessible and archival combination
    /// (PDF/UA-1 + PDF/A-2a) in one call.
    pub fn archival_accessible(self) -> (c: Self)
        ensures
            c.standards_spec() == seq![PdfStandard::Ua_1, PdfStandard::A_2a],
            Self::agree_except(c, self, false, false, false, false, true, false, false, false),
    {
        let pair = [PdfStandard::Ua_1, PdfStandard::A_2a];
        let c = self.standards(&pair);
        assert(pair@ =~= seq![PdfStandard::Ua_1, PdfStandard::A_2a]);
        c
    }

    /// Enable or disable tagged (accessible) PDF output (default: enabled).
    pub fn tagged(self, tagged: bool) -> (c: Self)
        ensures
            c.tagged_spec() == tagged,
            Self::agree_except(c, self, false, false, false, false, false, true, false, false),
    {
        PdfConfig { tagged, ..self }
    }

    /// Set the clock source for `datetime.today()`.
    pub fn clock(self, clock: Clock) -> (c: Self)
        ensures
            c.clock_spec() == clock,
            Self::agree_except(c, self, false, false, false, false, false, false, false, true),
    {
        PdfConfig { clock, ..self }
    }

    /// The clock behind `datetime.today()`.
    pub fn clock_setting(&self) -> (r: Clock)
        ensures
            r == self.clock_spec(),
    {
        self.clock
    }

    /// The standards to conform to.
    pub fn standards_list(&self) -> (r: &Vec<PdfStandard>)
        ensures
            r@ == self.standards_spec(),
    {
        &self.standards
    }
}

impl Default for PdfConfig {
    fn default() -> (c: Self)
        ensures
            c.ident_spec() is None,
            c.creator_spec() is None,
            c.timestamp_spec() is None,
            c.page_ranges_spec() is None,
            c.standards_spec().len() == 0,
            c.tagged_spec(),
            !c.pretty_spec(),
            c.clock_spec() == Clock::SystemLocal,
    {
        Self::new()
    }
}

/// Builds the message of an invalid-standards error.
fn standards_error_message(message: String, hints: &Vec<String>) -> (r: String)
    ensures
        r@ == standards_message(message@, texts(hints@)),
{
    let mut msg = message;
    let ghost head = msg@;
    let mut i: usize = 0;
    while i < hints.len()
        invariant
            i <= hints.len(),
            msg@ == standards_message(head, texts(hints@).take(i as int)),
        decreases hints.len() - i,
    {
        msg.append("\n  hint: ");
        msg.append(hints[i].as_str());
        assert(texts(hints@).take(i + 1).drop_last() =~= texts(hints@).take(i as int));
        i = i + 1;
    }
    assert(texts(hints@).take(hints.len() as int) =~= texts(hints@));
    msg
}

/// The settings of a PDF export, as typst's `PdfOptions` takes them: `None`
/// for the ident or the creator stands for typst's automatic choice.
pub struct PdfExportOptions {
    /// A stable document identifier, if fixed.
    pub ident: Option<String>,
    /// The `/Creator` metadata, if set.
    pub creator: Option<String>,
    /// The creation timestamp, if set.
    pub timestamp: Option<Timestamp>,
    /// The pages to export (`None`: all pages).
    pub page_ranges: Option<PageRanges>,
    /// The validated standards to conform to.
    pub standards: PdfStandards,
    /// Whether the PDF is tagged.
    pub tagged: bool,
    /// Whether the PDF is pretty-printed.
    pub pretty: bool,
}

/// Translate a config into typst's PDF export settings. No standards means
/// typst's default (PDF 1.7); otherwise the standards must be compatible, and
/// an incompatible combination is reported with typst's message and hints.
/// Every other setting is carried over from the config.
pub fn build_pdf_options(config: &PdfConfig) -> (r: Result<PdfExportOptions>)
    ensures
        config.standards_spec().len() == 0 ==> r is Ok,
        config.standards_spec().len() > 0 ==> (r is Ok <==> standards_rejection(config.standards_spec()) is None),
        r is Err ==> (r matches Err(PublishError::InvalidStandards(msg)) && standards_rejection(config.standards_spec())
            matches Some((m, hs)) && msg@ == standards_message(m, hs)),
        r matches Ok(o) ==> {
            &&& crate::error::opt_text(o.ident) == config.ident_spec()
            &&& crate::error::opt_text(o.creator) == config.creator_spec()
            &&& o.timestamp == config.timestamp_spec()
            &&& o.page_ranges == config.page_ranges_spec()
            &&& o.tagged == config.tagged_spec()
            &&& o.pretty == config.pretty_spec()
            &&& (config.standards_spec().len() > 0 ==> (standards_verdict(config.standards_spec()) matches Ok(v)
                && v == o.standards))
        },
{
    let standards = if config.standards.len() == 0 {
        default_standards()
    } else {
        match validate_standards(&config.standards) {
            Ok(s) => s,
            Err((message, hints)) => {
                let msg = standards_error_message(message, &hints);
                return Err(PublishError::InvalidStandards(msg));
            },
        }
    };
    Ok(PdfExportOptions {
        ident: config.ident.clone(),
        creator: config.creator.clone(),
        timestamp: config.timestamp,
        page_ranges: config.page_ranges.clone(),
        standards,
        tagged: config.tagged,
        pretty: config.pretty,
    })
}

} // verus!
