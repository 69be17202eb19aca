//! Font resources shared across renders.

use vstd::prelude::*;

use std::path::PathBuf;
use std::sync::Arc;
use typst_kit::fonts::FontStore;

verus! {

#[verifier::external_type_specification]
#[verifier::external_body]
pub struct ExFontStore(FontStore);

/// Another handle to the same font store (`Arc::clone`).
#[verifier::external_body]
fn share_store(a: &Arc<FontStore>) -> (r: Arc<FontStore>)
    ensures
        r == *a,
{
    Arc::clone(a)
}

/// Where each font slot of a store came from, in the store's order (the
/// order of the font indices typst uses).
pub uninterp spec fn font_sources(store: FontStore) -> Seq<FontOrigin>;

/// `before` followed by `n` fonts from `origin`.
pub open spec fn appended(before: Seq<FontOrigin>, n: nat, origin: FontOrigin) -> Seq<FontOrigin> {
    before + Seq::new(n, |_i: int| origin)
}

/// An empty font store (`FontStore::new`).
#[verifier::external_body]
fn new_font_store() -> (r: FontStore)
    ensures
        font_sources(r) == Seq::<FontOrigin>::empty(),
{
    FontStore::new()
}

/// Registers the fonts installed on the host (`FontStore::extend` with
/// `typst_kit::fonts::system`), appended in order after the fonts already
/// there. How many are found depends on the host.
#[verifier::external_body]
fn add_system_fonts(store: &mut FontStore)
    ensures
        exists|n: nat| font_sources(*final(store)) == #[trigger] appended(font_sources(*old(store)), n, FontOrigin::System),
{
    store.extend(typst_kit::fonts::system());
}

/// Registers the fonts found in `dir` (`FontStore::extend` with
/// `typst_kit::fonts::scan`), appended in order after the fonts already
/// there. How many are found depends on the directory.
#[verifier::external_body]
fn add_font_dir(store: &mut FontStore, dir: &PathBuf)
    ensures
        exists|n: nat| font_sources(*final(store)) == #[trigger] appended(font_sources(*old(store)), n, FontOrigin::Directory(*dir)),
{
    store.extend(typst_kit::fonts::scan(dir.as_path()));
}

/// Registers the fonts embedded in the binary (`FontStore::extend` with
/// `typst_kit::fonts::embedded`), appended in order after the fonts already
/// there. The embedded set (typst's bundled fonts) is never empty.
#[verifier::external_body]
fn add_embedded_fonts(store: &mut FontStore)
    ensures
        exists|n: nat| font_sources(*final(store)) == #[trigger] appended(font_sources(*old(store)), n, FontOrigin::Embedded),
        font_sources(*final(store)).len() > font_sources(*old(store)).len(),
{
    store.extend(typst_kit::fonts::embedded());
}

/// The fonts of `groups` registered group by group, `counts[i]` fonts from
/// the `i`-th group.
pub open spec fn expand(groups: Seq<FontOrigin>, counts: Seq<nat>) -> Seq<FontOrigin>
    decreases groups.len(),
{
    if groups.len() == 0 || counts.len() == 0 {
        Seq::empty()
    } else {
        appended(expand(groups.drop_last(), counts.drop_last()), counts.last(), groups.last())
    }
}

/// `fonts` consists of the groups `groups`, registered in that order, each
/// contributing some number of fonts and the last at least one.
pub open spec fn registered_as(fonts: Seq<FontOrigin>, groups: Seq<FontOrigin>) -> bool {
    exists|counts: Seq<nat>|
        counts.len() == groups.len() && counts.len() > 0 && counts.last() > 0 && fonts == #[trigger] expand(groups, counts)
}

proof fn lemma_expand_push(groups: Seq<FontOrigin>, counts: Seq<nat>, g: FontOrigin, n: nat)
    requires
        groups.len() == counts.len(),
    ensures
        expand(groups.push(g), counts.push(n)) == appended(expand(groups, counts), n, g),
{
    assert(groups.push(g).drop_last() =~= groups);
    assert(counts.push(n).drop_last() =~= counts);
}

/// Shared font resources that can be reused across multiple compilations.
///
/// [`new`](Self::new) scans system fonts, which is expensive. Create it once
/// at application startup and pass it to all render calls. If your templates
/// only use the bundled fonts, [`embedded_only`](Self::embedded_only) skips
/// the system scan entirely.
///
/// Fonts are registered in precedence order: system fonts first, then extra
/// directories, then the embedded fonts, so the bundled families act as
/// fallbacks.
pub struct SharedFonts {
    store: Arc<FontStore>,
    origins: Ghost<Seq<FontOrigin>>,
}

impl SharedFonts {
    /// The store's fonts came from the recorded groups, in that order.
    #[verifier::type_invariant]
    spec fn inv(self) -> bool {
        registered_as(font_sources(*self.store), self.origins@)
    }
}

/// Where a group of registered fonts came from.
pub enum FontOrigin {
    /// The fonts installed on the host.
    System,
    /// The fonts found in a directory.
    Directory(PathBuf),
    /// The fonts embedded in the binary.
    Embedded,
}

/// The origins of the fonts of a store that registered the system fonts, then
/// each directory of `dirs` in order, then the embedded fonts.
pub open spec fn scanned_origins(dirs: Seq<PathBuf>) -> Seq<FontOrigin> {
    seq![FontOrigin::System] + dirs.map_values(|d: PathBuf| FontOrigin::Directory(d)) + seq![FontOrigin::Embedded]
}

impl SharedFonts {
    /// The font groups registered, in precedence order.
    pub closed spec fn origins(self) -> Seq<FontOrigin> {
        self.origins@
    }

    /// Where each font came from, in the store's order.
    pub closed spec fn fonts(self) -> Seq<FontOrigin> {
        font_sources(*self.store)
    }

    /// Scan system fonts and embedded fonts. Call once at startup.
    pub fn new() -> (f: Self)
        ensures
            f.origins() == seq![FontOrigin::System, FontOrigin::Embedded],
            registered_as(f.fonts(), f.origins()),
    {
        let mut store = new_font_store();
        let ghost mut groups: Seq<FontOrigin> = Seq::empty();
        let ghost mut counts: Seq<nat> = Seq::empty();
        add_system_fonts(&mut store);
        proof {
            let n = choose|n: nat| font_sources(store) == #[trigger] appended(Seq::<FontOrigin>::empty(), n, FontOrigin::System);
            lemma_expand_push(groups, counts, FontOrigin::System, n);
            groups = groups.push(FontOrigin::System);
            counts = counts.push(n);
        }
        add_embedded_fonts(&mut store);
        proof {
            let n = choose|n: nat| font_sources(store) == #[trigger] appended(expand(groups, counts), n, FontOrigin::Embedded);
            lemma_expand_push(groups, counts, FontOrigin::Embedded, n);
            groups = groups.push(FontOrigin::Embedded);
            counts = counts.push(n);
            assert(groups =~= seq![FontOrigin::System, FontOrigin::Embedded]);
            assert(font_sources(store) == expand(groups, counts));
        }
        SharedFonts { store: Arc::new(store), origins: Ghost(groups) }
    }

    /// Scan system fonts, embedded fonts, plus additional font directories
    /// (in the order given).
    pub fn with_extra_dirs(dirs: &Vec<PathBuf>) -> (f: Self)
        ensures
            f.origins() == scanned_origins(dirs@),
            registered_as(f.fonts(), f.origins()),
    {
        let mut store = new_font_store();
        let ghost mut groups: Seq<FontOrigin> = Seq::empty();
        let ghost mut counts: Seq<nat> = Seq::empty();
        add_system_fonts(&mut store);
        proof {
            let n = choose|n: nat| font_sources(store) == #[trigger] appended(Seq::<FontOrigin>::empty(), n, FontOrigin::System);
            lemma_expand_push(groups, counts, FontOrigin::System, n);
            groups = groups.push(FontOrigin::System);
            counts = counts.push(n);
        }
        let mut i: usize = 0;
        while i < dirs.len()
            invariant
                i <= dirs.len(),
                groups == seq![FontOrigin::System] + dirs@.take(i as int).map_values(|d: PathBuf| FontOrigin::Directory(d)),
                groups.len() == counts.len(),
                font_sources(store) == expand(groups, counts),
            decreases dirs.len() - i,
        {
            add_font_dir(&mut store, &dirs[i]);
            proof {
                let g = FontOrigin::Directory(dirs@[i as int]);
                let n = choose|n: nat| font_sources(store) == #[trigger] appended(expand(groups, counts), n, g);
                lemma_expand_push(groups, counts, g, n);
                groups = groups.push(g);
                counts = counts.push(n);
                assert(dirs@.take(i + 1).map_values(|d: PathBuf| FontOrigin::Directory(d)) =~= dirs@.take(
                    i as int,
                ).map_values(|d: PathBuf| FontOrigin::Directory(d)).push(g));
                assert(groups =~= seq![FontOrigin::System] + dirs@.take(i + 1).map_values(|d: PathBuf| FontOrigin::Directory(d)));
            }
            i = i + 1;
        }
        add_embedded_fonts(&mut store);
        proof {
            let n = choose|n: nat| font_sources(store) == #[trigger] appended(expand(groups, counts), n, FontOrigin::Embedded);
            lemma_expand_push(groups, counts, FontOrigin::Embedded, n);
            assert(dirs@.take(dirs.len() as int) =~= dirs@);
            groups = groups.push(FontOrigin::Embedded);
            counts = counts.push(n);
            assert(font_sources(store) == expand(groups, counts));
        }
        SharedFonts { store: Arc::new(store), origins: Ghost(groups) }
    }

    /// Use only the fonts embedded in the binary. This skips the system scan
    /// and produces host-independent output.
    pub fn embedded_only() -> (f: Self)
        ensures
            f.origins() == seq![FontOrigin::Embedded],
            registered_as(f.fonts(), f.origins()),
    {
        let mut store = new_font_store();
        let ghost groups: Seq<FontOrigin> = Seq::empty();
        let ghost counts: Seq<nat> = Seq::empty();
        add_embedded_fonts(&mut store);
        proof {
            let n = choose|n: nat| font_sources(store) == #[trigger] appended(Seq::<FontOrigin>::empty(), n, FontOrigin::Embedded);
            lemma_expand_push(groups, counts, FontOrigin::Embedded, n);
            assert(seq![FontOrigin::Embedded] =~= groups.push(FontOrigin::Embedded));
            assert(font_sources(store) == expand(groups.push(FontOrigin::Embedded), counts.push(n)));
        }
        let ghost groups = groups.push(FontOrigin::Embedded);
        SharedFonts { store: Arc::new(store), origins: Ghost(groups) }
    }

    /// The font store these fonts were registered into.
    pub closed spec fn font_store(self) -> Arc<FontStore> {
        self.store
    }

    /// The font store, shared by reference count.
    pub fn store(&self) -> (r: &Arc<FontStore>)
        ensures
            *r == self.font_store(),
    {
        &self.store
    }
}

impl Default for SharedFonts {
    /// The system fonts, then the embedded fonts (see [`SharedFonts::new`]).
    fn default() -> (f: Self)
        ensures
            f.origins() == seq![FontOrigin::System, FontOrigin::Embedded],
            registered_as(f.fonts(), f.origins()),
    {
        Self::new()
    }
}

impl Clone for SharedFonts {
    /// Another handle to the same fonts.
    fn clone(&self) -> (r: Self)
        ensures
            r == *self,
    {
        proof { use_type_invariant(self); }
        SharedFonts { store: share_store(&self.store), origins: Ghost(self.origins@) }
    }
}

} // verus!

verus! {

/// Embedded fonts are always registered last, so the bundled families act as
/// fallbacks behind the host's fonts and any extra directories.
pub proof fn lemma_embedded_fonts_come_last(dirs: Seq<PathBuf>)
    ensures
        scanned_origins(dirs).last() == FontOrigin::Embedded,
        scanned_origins(dirs)[0] == FontOrigin::System,
        scanned_origins(dirs).len() == dirs.len() + 2,
        scanned_origins(Seq::empty()) == seq![FontOrigin::System, FontOrigin::Embedded],
{
    assert(scanned_origins(Seq::empty()) =~= seq![FontOrigin::System, FontOrigin::Embedded]);
}

} // verus!

verus! {

/// Whatever the host and the directories hold, fonts registered group by
/// group with the embedded group last end with at least one embedded font,
/// and every font comes from one of the groups.
pub proof fn lemma_registered_fonts_end_embedded(fonts: Seq<FontOrigin>, groups: Seq<FontOrigin>)
    requires
        registered_as(fonts, groups),
        groups.last() == FontOrigin::Embedded,
    ensures
        fonts.len() > 0,
        fonts.last() == FontOrigin::Embedded,
        forall|i: int| 0 <= i < fonts.len() ==> groups.contains(#[trigger] fonts[i]),
{
    let counts = choose|counts: Seq<nat>|
        counts.len() == groups.len() && counts.len() > 0 && counts.last() > 0 && fonts == #[trigger] expand(groups, counts);
    lemma_expand_from_groups(groups, counts);
}

proof fn lemma_expand_from_groups(groups: Seq<FontOrigin>, counts: Seq<nat>)
    requires
        groups.len() == counts.len(),
    ensures
        forall|i: int| 0 <= i < expand(groups, counts).len() ==> groups.contains(#[trigger] expand(groups, counts)[i]),
    decreases groups.len(),
{
    if groups.len() > 0 {
        lemma_expand_from_groups(groups.drop_last(), counts.drop_last());
        let prev = expand(groups.drop_last(), counts.drop_last());
        assert forall|i: int| 0 <= i < expand(groups, counts).len() implies groups.contains(#[trigger] expand(groups, counts)[i]) by {
            if i < prev.len() {
                let j = choose|j: int| 0 <= j < groups.drop_last().len() && groups.drop_last()[j] == prev[i];
                assert(groups[j] == prev[i]);
            } else {
                assert(groups[groups.len() - 1] == groups.last());
            }
        }
    }
}

} // verus!
