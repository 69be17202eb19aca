//! The Typst standard library a render compiles against.

use vstd::prelude::*;

use typst::foundations::Dict;
use typst::utils::LazyHash;
use typst::{Features, Library, LibraryBuilder, LibraryExt};

verus! {

#[verifier::external_type_specification]
#[verifier::external_body]
pub struct ExLibrary(Library);

#[verifier::external_type_specification]
#[verifier::external_body]
pub struct ExLibraryBuilder(LibraryBuilder);

#[verifier::external_type_specification]
#[verifier::external_body]
pub struct ExFeatures(Features);

#[verifier::external_type_specification]
#[verifier::external_body]
#[verifier::reject_recursive_types(T)]
pub struct ExLazyHash<T: ?Sized>(LazyHash<T>);

/// The feature set with HTML export enabled (`Feature::Html`), which defines
/// the `html` module for templates.
#[verifier::external_body]
fn html_features() -> Features {
    Features::from_iter([typst::Feature::Html])
}

/// Typst's default feature set (`Features::default`).
#[verifier::external_body]
fn default_features() -> Features {
    Features::default()
}

/// A library builder with the given features (`Library::builder`, then
/// `with_features`).
#[verifier::external_body]
fn library_builder(features: Features) -> LibraryBuilder {
    Library::builder().with_features(features)
}

/// The builder with `sys.inputs` set to `inputs` (`with_inputs`).
#[verifier::external_body]
fn builder_with_inputs(builder: LibraryBuilder, inputs: Dict) -> LibraryBuilder {
    builder.with_inputs(inputs)
}

/// The built library, with its hash cached (`build`, then `LazyHash::new`).
#[verifier::external_body]
fn build_library(builder: LibraryBuilder) -> LazyHash<Library> {
    LazyHash::new(builder.build())
}

/// The standard library for one render: HTML output enables the `html`
/// module; `sys.inputs` is set only when the data set has inputs.
pub fn world_library(html: bool, inputs: Option<Dict>) -> LazyHash<Library> {
    let features = if html { html_features() } else { default_features() };
    let builder = library_builder(features);
    let builder = match inputs {
        Some(dict) => builder_with_inputs(builder, dict),
        None => builder,
    };
    build_library(builder)
}

} // verus!
