//! Compile Typst templates with user data into PDF or HTML documents.
//!
//! This crate holds the verified core: data sets, configuration builders,
//! the template registry, diagnostics and error rendering, virtual-file and
//! path rules, the `datetime.today()` clock, and the HTTP response
//! descriptions. Everything that drives the Typst compiler through its
//! `World` trait lives in the companion application crate.

use vstd::prelude::*;

mod clock;
mod data;
mod error;
mod fonts;
mod html;
mod image_util;
mod library;
mod pdf;
mod renderer;
mod response;
mod template;
mod text;
mod util;

pub use util::{sanitize_filename, is_filename_char, sanitized};
pub use error::{locate, one_based_location, Diagnostic, Hint, PublishError, Result, Severity};
pub use data::DataSet;
pub use template::{bind_data, decide_file_access, project_file_id, project_path_of, resolve_path, BoundData, FileDenial, PreparedTemplate, TemplateSource};
pub use clock::{today_ymd, Clock};
pub use html::HtmlConfig;
pub use pdf::{build_pdf_options, PdfConfig, PdfExportOptions, PdfStandard};
pub use fonts::{FontOrigin, SharedFonts};
pub use renderer::{async_failure, AsyncFailure, Renderer};
pub use response::{HtmlResponse, PdfResponse, PublishErrorResponse};
pub use image_util::downscale_image;
pub use library::world_library;
pub use typst::foundations::Dict;
pub use typst::layout::PageRanges;
pub use typst_pdf::{Timestamp, Timezone};

verus! {

/// Comemo's cache eviction (`comemo::evict`): drops memoized results unused
/// for the last `max_age` evictions.
#[verifier::external_body]
fn comemo_evict(max_age: usize) {
    comemo::evict(max_age);
}

/// Evict Typst's memoization-cache entries unused for the last `max_age`
/// calls to this function.
///
/// Typst caches compilation work (parsing, layout, image decode, ...) in a
/// process-global cache that otherwise grows unbounded. Long-running servers
/// should call this periodically. `evict_cache(0)` clears the cache entirely.
pub fn evict_cache(max_age: usize) {
    comemo_evict(max_age);
}

} // verus!
