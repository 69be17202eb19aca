//! Settings of the HTML output.

use vstd::prelude::*;

use crate::clock::Clock;

verus! {

/// Configuration for HTML generation. Uses builder pattern.
///
/// Only the knobs that make sense for HTML output: a [`Clock`] for
/// `datetime.today()` and whether to pretty-print.
#[derive(Debug, Clone, Copy, PartialEq, Eq, Structural)]
pub struct HtmlConfig {
    pretty: bool,
    clock: Clock,
}

impl HtmlConfig {
    /// The default settings: minified output, system-local clock.
    pub closed spec fn spec_default() -> HtmlConfig {
        HtmlConfig { pretty: false, clock: Clock::SystemLocal }
    }

    /// Whether the output is pretty-printed.
    pub closed spec fn is_pretty_spec(self) -> bool {
        self.pretty
    }

    /// The clock behind `datetime.today()`.
    pub closed spec fn clock_spec(self) -> Clock {
        self.clock
    }

    /// A config with the default settings (minified output, system-local clock).
    pub fn new() -> (c: Self)
        ensures
            c == Self::spec_default(),
            !c.is_pretty_spec(),
            c.clock_spec() == Clock::SystemLocal,
    {
        HtmlConfig { pretty: false, clock: Clock::SystemLocal }
    }

    /// Emit human-readable (un-minified) HTML.
    pub fn pretty(self, pretty: bool) -> (c: Self)
        ensures
            c.is_pretty_spec() == pretty,
            c.clock_spec() == self.clock_spec(),
    {
        HtmlConfig { pretty, clock: self.clock }
    }

    /// Set the clock source for `datetime.today()`.
    pub fn clock(self, clock: Clock) -> (c: Self)
        ensures
            c.is_pretty_spec() == self.is_pretty_spec(),
            c.clock_spec() == clock,
    {
        HtmlConfig { pretty: self.pretty, clock }
    }

    /// Whether the output is pretty-printed.
    pub fn is_pretty(&self) -> (r: bool)
        ensures
            r == self.is_pretty_spec(),
    {
        self.pretty
    }

    /// The clock behind `datetime.today()`.
    pub fn clock_setting(&self) -> (r: Clock)
        ensures
            r == self.clock_spec(),
    {
        self.clock
    }
}

impl Default for HtmlConfig {
    fn default() -> (c: Self)
        ensures
            !c.is_pretty_spec(),
            c.clock_spec() == Clock::SystemLocal,
    {
        Self::new()
    }
}

} // verus!
