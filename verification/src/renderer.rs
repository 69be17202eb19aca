//! [`Renderer`]: the shared render state of an application (fonts, default
//! per-format configs, bounded concurrency) and its registry of prepared
//! templates, looked up by key.

use vstd::prelude::*;

use core::time::Duration;
use std::sync::Arc;
use tokio::sync::Semaphore;

use crate::clock::Clock;
use crate::error::{PublishError, Result};
use crate::fonts::SharedFonts;
use crate::html::HtmlConfig;
use crate::pdf::PdfConfig;
use crate::template::PreparedTemplate;

verus! {

#[verifier::external_type_specification]
#[verifier::external_body]
pub struct ExSemaphore(Semaphore);

/// The largest number of permits a semaphore can hold
/// (`Semaphore::MAX_PERMITS`, `usize::MAX >> 3`).
pub open spec fn max_permits() -> nat {
    (usize::MAX as nat) / 8
}

/// The number of permits a semaphore was created with (its initial
/// permits, before any is acquired).
pub uninterp spec fn initial_permits(s: Semaphore) -> nat;

/// A semaphore holding `permits` permits (`Semaphore::new`), shared by
/// reference count. `Semaphore::new` panics above `MAX_PERMITS`.
#[verifier::external_body]
fn new_limiter(permits: usize) -> (r: Arc<Semaphore>)
    requires
        permits <= max_permits(),
    ensures
        initial_permits(*r) == permits,
{
    Arc::new(Semaphore::new(permits))
}

/// The template registered last under `key` among `entries`, if any.
pub open spec fn find_template(entries: Seq<(String, PreparedTemplate)>, key: Seq<char>) -> Option<PreparedTemplate>
    decreases entries.len(),
{
    if entries.len() == 0 {
        None
    } else if entries.last().0@ == key {
        Some(entries.last().1)
    } else {
        find_template(entries.drop_last(), key)
    }
}

/// Appending an entry makes it the one found for its key and leaves every
/// other key as it was.
proof fn lemma_find_push(entries: Seq<(String, PreparedTemplate)>, e: (String, PreparedTemplate), key: Seq<char>)
    ensures
        find_template(entries.push(e), key) == if e.0@ == key { Some(e.1) } else { find_template(entries, key) },
{
    assert(entries.push(e).drop_last() =~= entries);
}

/// Removing an entry of another key leaves what is found for `key` unchanged.
proof fn lemma_find_remove(entries: Seq<(String, PreparedTemplate)>, i: int, key: Seq<char>)
    requires
        0 <= i < entries.len(),
        entries[i].0@ != key,
    ensures
        find_template(entries.remove(i), key) == find_template(entries, key),
    decreases entries.len(),
{
    if i == entries.len() - 1 {
        assert(entries.remove(i) =~= entries.drop_last());
    } else {
        let rest = entries.remove(i);
        assert(rest.last() == entries.last());
        assert(rest.drop_last() =~= entries.drop_last().remove(i));
        lemma_find_remove(entries.drop_last(), i, key);
    }
}

/// The message of the error for a key that has no template.
pub open spec fn missing_key_message(key: Seq<char>) -> Seq<char> {
    "no template registered for key '"@ + key + "'"@
}

/// Owns the shared render state for an application and renders registered
/// templates by key, to PDF and/or HTML.
///
/// Build once (e.g. into your app state), register your templates up front,
/// and render many times. Keys are explicit (no silent path/mtime caching):
/// re-registering a key replaces its template.
pub struct Renderer {
    fonts: SharedFonts,
    // The registry, one entry per key (re-registering replaces the entry).
    // A vector, searched by key, keeps what the registry holds stated exactly;
    // std's string-keyed maps come with no specification of their contents.
    templates: Vec<(String, PreparedTemplate)>,
    default_pdf_config: PdfConfig,
    default_html_config: HtmlConfig,
    limiter: Option<Arc<Semaphore>>,
    deadline: Option<Duration>,
}

impl Renderer {
    /// The registered templates by key.
    pub closed spec fn registry(self) -> Map<Seq<char>, PreparedTemplate> {
        Map::new(
            |k: Seq<char>| find_template(self.templates@, k) is Some,
            |k: Seq<char>| find_template(self.templates@, k)->0,
        )
    }

    /// Whether a concurrency limit is set.
    pub closed spec fn is_limited(self) -> bool {
        self.limiter is Some
    }

    /// The number of concurrent async renders allowed, if limited.
    pub closed spec fn concurrency_limit(self) -> Option<nat> {
        match self.limiter {
            Some(l) => Some(initial_permits(*l)),
            None => None,
        }
    }

    /// The deadline of the async renders, if set.
    pub closed spec fn deadline_spec(self) -> Option<Duration> {
        self.deadline
    }

    /// The config applied to every PDF render.
    pub closed spec fn pdf_config_spec(self) -> PdfConfig {
        self.default_pdf_config
    }

    /// The config applied to every HTML render.
    pub closed spec fn html_config_spec(self) -> HtmlConfig {
        self.default_html_config
    }

    /// The fonts every render uses.
    pub closed spec fn fonts_spec(self) -> SharedFonts {
        self.fonts
    }

    /// Create a renderer over the given fonts, with default per-format
    /// configs, no templates, no concurrency limit and no deadline.
    pub fn new(fonts: SharedFonts) -> (r: Self)
        ensures
            r.registry() == Map::<Seq<char>, PreparedTemplate>::empty(),
            r.fonts_spec() == fonts,
            !r.is_limited(),
            r.deadline_spec() is None,
            r.html_config_spec() == HtmlConfig::spec_default(),
            r.pdf_config_spec().ident_spec() is None,
            r.pdf_config_spec().creator_spec() is None,
            r.pdf_config_spec().timestamp_spec() is None,
            r.pdf_config_spec().page_ranges_spec() is None,
            r.pdf_config_spec().standards_spec().len() == 0,
            r.pdf_config_spec().tagged_spec(),
            !r.pdf_config_spec().pretty_spec(),
            r.pdf_config_spec().clock_spec() == Clock::SystemLocal,
    {
        let r = Renderer {
            fonts,
            templates: Vec::new(),
            default_pdf_config: PdfConfig::new(),
            default_html_config: HtmlConfig::new(),
            limiter: None,
            deadline: None,
        };
        assert(r.registry() =~= Map::<Seq<char>, PreparedTemplate>::empty());
        r
    }

    /// Set the [`PdfConfig`] applied to every PDF render.
    pub fn with_default_pdf_config(self, config: PdfConfig) -> (r: Self)
        ensures
            r.fonts_spec() == self.fonts_spec(),
            r.pdf_config_spec() == config,
            r.registry() == self.registry(),
            r.html_config_spec() == self.html_config_spec(),
            r.is_limited() == self.is_limited(),
            r.concurrency_limit() == self.concurrency_limit(),
            r.deadline_spec() == self.deadline_spec(),
    {
        Renderer { default_pdf_config: config, ..self }
    }

    /// Set the [`HtmlConfig`] applied to every HTML render.
    pub fn with_default_html_config(self, config: HtmlConfig) -> (r: Self)
        ensures
            r.fonts_spec() == self.fonts_spec(),
            r.html_config_spec() == config,
            r.registry() == self.registry(),
            r.pdf_config_spec() == self.pdf_config_spec(),
            r.is_limited() == self.is_limited(),
            r.concurrency_limit() == self.concurrency_limit(),
            r.deadline_spec() == self.deadline_spec(),
    {
        Renderer { default_html_config: config, ..self }
    }

    /// Bound the number of concurrent async renders (each saturates a CPU
    /// core). A good default is the CPU count.
    pub fn with_concurrency_limit(self, max_concurrent: usize) -> (r: Self)
        requires
            max_concurrent <= max_permits(),
        ensures
            r.fonts_spec() == self.fonts_spec(),
            r.is_limited(),
            r.concurrency_limit() == Some(max_concurrent as nat),
            r.registry() == self.registry(),
            r.pdf_config_spec() == self.pdf_config_spec(),
            r.html_config_spec() == self.html_config_spec(),
            r.deadline_spec() == self.deadline_spec(),
    {
        Renderer { limiter: Some(new_limiter(max_concurrent)), ..self }
    }

    /// Set a deadline for the async renders. This is best-effort only: the
    /// compile is not cancelled, its result is discarded. Has no effect on the
    /// synchronous renders.
    pub fn with_deadline(self, deadline: Duration) -> (r: Self)
        ensures
            r.fonts_spec() == self.fonts_spec(),
            r.deadline_spec() == Some(deadline),
            r.registry() == self.registry(),
            r.pdf_config_spec() == self.pdf_config_spec(),
            r.html_config_spec() == self.html_config_spec(),
            r.is_limited() == self.is_limited(),
            r.concurrency_limit() == self.concurrency_limit(),
    {
        Renderer { deadline: Some(deadline), ..self }
    }

    /// Register a pre-parsed template under `key`, replacing any template
    /// registered under the same key before.
    pub fn register_template(&mut self, key: &'static str, template: PreparedTemplate)
        ensures
            final(self).fonts_spec() == old(self).fonts_spec(),
            final(self).registry() == old(self).registry().insert(key@, template),
            final(self).pdf_config_spec() == old(self).pdf_config_spec(),
            final(self).html_config_spec() == old(self).html_config_spec(),
            final(self).is_limited() == old(self).is_limited(),
            final(self).concurrency_limit() == old(self).concurrency_limit(),
            final(self).deadline_spec() == old(self).deadline_spec(),
    {
        let name = key.to_owned();
        let ghost before = self.templates@;
        let mut i: usize = 0;
        let mut found: Option<usize> = None;
        while i < self.templates.len()
            invariant
                i <= self.templates.len(),
                self.templates@ == before,
                name@ == key@,
                found matches Some(j) ==> j < before.len() && before[j as int].0@ == key@,
            decreases self.templates.len() - i,
        {
            if found.is_none() && self.templates[i].0 == name {
                found = Some(i);
            }
            i = i + 1;
        }
        let ghost removed = before;
        if let Some(j) = found {
            let _replaced = self.templates.remove(j);
            proof {
                removed = before.remove(j as int);
                assert forall|k: Seq<char>| k != key@ implies find_template(removed, k) == find_template(before, k) by {
                    lemma_find_remove(before, j as int, k);
                }
            }
        }
        assert(self.templates@ == removed);
        let ghost entry = (name, template);
        self.templates.push((name, template));
        proof {
            assert forall|k: Seq<char>| #![auto] find_template(self.templates@, k) == (if k == key@ { Some(template) } else { find_template(before, k) }) by {
                lemma_find_push(removed, entry, k);
            }
            assert(self.registry() =~= old(self).registry().insert(key@, template));
        }
    }

    /// The template registered under `key`, or
    /// [`PublishError::InvalidTemplate`] naming the key when there is none.
    pub fn lookup(&self, key: &str) -> (r: Result<&PreparedTemplate>)
        ensures
            self.registry().contains_key(key@) ==> (r matches Ok(t) && *t == self.registry()[key@]),
            !self.registry().contains_key(key@) ==> (r matches Err(PublishError::InvalidTemplate(m))
                && m@ == missing_key_message(key@)),
    {
        let name = key.to_owned();
        let mut i: usize = self.templates.len();
        assert(self.templates@.take(i as int) =~= self.templates@);
        while i > 0
            invariant
                i <= self.templates.len(),
                name@ == key@,
                find_template(self.templates@, key@) == find_template(self.templates@.take(i as int), key@),
            decreases i,
        {
            let j = i - 1;
            assert(self.templates@.take(i as int).drop_last() =~= self.templates@.take(j as int));
            if self.templates[j].0 == name {
                return Ok(&self.templates[j].1);
            }
            i = j;
        }
        let mut msg = String::from_str("no template registered for key '");
        msg.append(key);
        msg.append("'");
        Err(PublishError::InvalidTemplate(msg))
    }

    /// The fonts every render uses.
    pub fn fonts(&self) -> (r: &SharedFonts)
        ensures
            *r == self.fonts_spec(),
    {
        &self.fonts
    }

    /// The config applied to every PDF render.
    pub fn pdf_config(&self) -> (r: &PdfConfig)
        ensures
            *r == self.pdf_config_spec(),
    {
        &self.default_pdf_config
    }

    /// The config applied to every HTML render.
    pub fn html_config(&self) -> (r: &HtmlConfig)
        ensures
            *r == self.html_config_spec(),
    {
        &self.default_html_config
    }

    /// The concurrency limiter of the async renders, if set.
    pub fn limiter(&self) -> (r: &Option<Arc<Semaphore>>)
        ensures
            r is Some == self.is_limited(),
    {
        &self.limiter
    }

    /// The deadline of the async renders, if set.
    pub fn deadline(&self) -> (r: Option<Duration>)
        ensures
            r == self.deadline_spec(),
    {
        self.deadline
    }
}

/// Registering a template and then looking its key up finds that template,
/// and every other key finds what it found before.
pub proof fn lemma_lookup_after_register(before: Renderer, after: Renderer, key: Seq<char>, template: PreparedTemplate, other: Seq<char>)
    requires
        after.registry() == before.registry().insert(key, template),
    ensures
        after.registry().contains_key(key),
        after.registry()[key] == template,
        other != key ==> after.registry().contains_key(other) == before.registry().contains_key(other),
        other != key && before.registry().contains_key(other) ==> after.registry()[other] == before.registry()[other],
{
}

/// Registering twice under one key keeps only the later template: the result
/// is the same as registering the later template alone.
pub proof fn lemma_register_replaces(
    start: Renderer,
    middle: Renderer,
    end: Renderer,
    key: Seq<char>,
    first: PreparedTemplate,
    second: PreparedTemplate,
)
    requires
        middle.registry() == start.registry().insert(key, first),
        end.registry() == middle.registry().insert(key, second),
    ensures
        end.registry() == start.registry().insert(key, second),
{
    assert(start.registry().insert(key, first).insert(key, second) =~= start.registry().insert(key, second));
}

/// What went wrong around an offloaded (async) render.
#[derive(Debug, Clone, Copy, PartialEq, Eq, Structural)]
pub enum AsyncFailure {
    /// The concurrency limiter was closed before a permit was granted.
    LimiterClosed,
    /// The render did not finish before the deadline.
    DeadlineExpired,
    /// The blocking render task could not be joined (it panicked or was
    /// cancelled).
    TaskFailed,
}

/// The error an async render reports for a failure around it, with the
/// outside error's text as `detail`: a closed limiter or a failed task is an
/// invalid-template error carrying the detail, an expired deadline is a
/// timeout.
pub fn async_failure(kind: AsyncFailure, detail: String) -> (r: PublishError)
    ensures
        kind == AsyncFailure::LimiterClosed ==> (r matches PublishError::InvalidTemplate(m)
            && m@ == "limiter closed: "@ + detail@),
        kind == AsyncFailure::TaskFailed ==> (r matches PublishError::InvalidTemplate(m)
            && m@ == "render task failed: "@ + detail@),
        kind == AsyncFailure::DeadlineExpired ==> r is Timeout,
{
    match kind {
        AsyncFailure::LimiterClosed => PublishError::InvalidTemplate(String::from_str("limiter closed: ").concat(detail.as_str())),
        AsyncFailure::TaskFailed => PublishError::InvalidTemplate(String::from_str("render task failed: ").concat(detail.as_str())),
        AsyncFailure::DeadlineExpired => PublishError::Timeout,
    }
}

} // verus!
