//! Template sources, prepared templates, and how data files are bound to a
//! template's project.

use vstd::prelude::*;

use std::path::PathBuf;
use typst::foundations::Dict;
use typst::syntax::{FileId, Source};

use crate::data::{files_view, names_of, DataSet};
use crate::error::{opt_text, PublishError, Result};

verus! {

#[verifier::external_type_specification]
#[verifier::external_body]
pub struct ExPathBuf(PathBuf);

#[verifier::external_type_specification]
#[verifier::external_body]
pub struct ExFileId(FileId);

#[verifier::external_type_specification]
#[verifier::external_body]
pub struct ExSource(Source);

/// What a source file holds: its text (`Source::text`). A `Source` is a
/// text buffer with its parse; this names the buffer's contents.
pub uninterp spec fn source_text(source: Source) -> Seq<char>;

/// What a path holds: its bytes (`OsStr::as_encoded_bytes`). A `PathBuf` is
/// an owned buffer of OS-string bytes; this names the buffer's contents.
pub uninterp spec fn path_bytes(path: PathBuf) -> Seq<u8>;

/// `Source::clone`: a cheap copy sharing the parsed syntax tree; it holds the
/// same text.
pub assume_specification[ <Source as Clone>::clone ](s: &Source) -> (r: Source)
    ensures
        source_text(r) == source_text(*s),
;

/// `PathBuf::clone`: a copy of the path, holding the same bytes.
pub assume_specification[ <PathBuf as Clone>::clone ](p: &PathBuf) -> (r: PathBuf)
    ensures
        path_bytes(r) == path_bytes(*p),
;

/// How to load the Typst template.
pub enum TemplateSource {
    /// Load from a file on disk. The parent directory becomes the root
    /// for resolving relative imports and data files.
    FilePath(PathBuf),
    /// Template content provided as a string. An optional root directory
    /// can be provided for resolving relative imports.
    InMemory {
        /// The Typst source.
        content: String,
        /// Optional root for resolving relative imports / file reads. `None`
        /// denies all disk reads (virtual-only).
        root: Option<PathBuf>,
    },
}

/// The normalized text (with a leading slash) of the virtual path that typst
/// builds from `name` (`VirtualPath::new`), or `None` when typst rejects it
/// (a backslash, or `..` escaping the root).
pub uninterp spec fn virtual_path_text(name: Seq<char>) -> Option<Seq<char>>;

/// A single path segment: non-empty, not `.` or `..`, and free of forward and
/// backward slashes.
pub open spec fn is_plain_segment(name: Seq<char>) -> bool {
    &&& name.len() > 0
    &&& name != "."@
    &&& name != ".."@
    &&& !name.contains('/')
    &&& !name.contains('\\')
}

/// The normalized virtual path of `name` (`VirtualPath::new`, then
/// `get_with_slash`).
///
/// Claims: the result is named by [`virtual_path_text`]; a plain segment
/// `s` normalizes to `/s`; and a normalized path normalizes to itself.
#[verifier::external_body]
fn normalize_virtual_path(name: &str) -> (r: Option<String>)
    ensures
        opt_text(r) == virtual_path_text(name@),
        is_plain_segment(name@) ==> opt_text(r) == Some("/"@ + name@),
        r matches Some(p) ==> virtual_path_text(p@) == Some(p@),
{
    typst::syntax::VirtualPath::new(name).ok().map(|p| p.get_with_slash().to_owned())
}

/// The interned file id of the project file at an already normalized path
/// (`FileId::new` over `RootedPath::new(VirtualRoot::Project, ..)`).
#[verifier::external_body]
fn project_file_id_at(path: &str) -> FileId
    requires
        virtual_path_text(path@) == Some(path@),
{
    let vpath = typst::syntax::VirtualPath::new(path).unwrap();
    FileId::new(typst::syntax::RootedPath::new(typst::syntax::VirtualRoot::Project, vpath))
}

/// A parsed source file with the given id and text (`Source::new`), which
/// holds that text.
#[verifier::external_body]
fn new_source(id: FileId, text: String) -> (r: Source)
    ensures
        source_text(r) == text@,
{
    Source::new(id, text)
}

/// The last component of the path with the given bytes, as UTF-8
/// (`Path::file_name`, then `OsStr::to_str`): `None` when the path ends in
/// `..`, has no components, or its name is not UTF-8.
pub uninterp spec fn utf8_file_name(path: Seq<u8>) -> Option<Seq<char>>;

/// The path with the given bytes without its final component
/// (`Path::parent`): `None` for a root or an empty path.
pub uninterp spec fn parent_path(path: Seq<u8>) -> Option<Seq<u8>>;

/// The file name of a path as UTF-8 (`Path::file_name`, then `to_str`).
#[verifier::external_body]
fn path_file_name(path: &PathBuf) -> (r: Option<String>)
    ensures
        opt_text(r) == utf8_file_name(path_bytes(*path)),
{
    path.file_name().and_then(|n| n.to_str()).map(|n| n.to_owned())
}

/// The parent directory of a path (`Path::parent`).
#[verifier::external_body]
fn path_parent(path: &PathBuf) -> (r: Option<PathBuf>)
    ensures
        r is Some <==> parent_path(path_bytes(*path)) is Some,
        r matches Some(p) ==> parent_path(path_bytes(*path)) == Some(path_bytes(p)),
{
    path.parent().map(|p| p.to_path_buf())
}

/// The name a template read from a file is known by: the file's UTF-8 name,
/// or `main.typ` when it has none.
pub open spec fn file_template_name(path: Seq<u8>) -> Seq<char> {
    match utf8_file_name(path) {
        Some(n) => n,
        None => "main.typ"@,
    }
}

/// The project path a file named `name` lives at: its normalized virtual
/// path, or the template's default path `/main.typ` when typst rejects the
/// name.
pub open spec fn project_path(name: Seq<char>) -> Seq<char> {
    match virtual_path_text(name) {
        Some(p) => p,
        None => "/main.typ"@,
    }
}

proof fn lemma_main_is_plain()
    ensures
        is_plain_segment("main.typ"@),
        "/"@ + "main.typ"@ == "/main.typ"@,
{
    reveal_strlit("main.typ");
    reveal_strlit("/main.typ");
    reveal_strlit("/");
    reveal_strlit(".");
    reveal_strlit("..");
    assert("/"@ + "main.typ"@ =~= "/main.typ"@);
    assert(!"main.typ"@.contains('/'));
    assert(!"main.typ"@.contains('\\'));
    assert("main.typ"@ != "."@) by { assert("main.typ"@.len() != "."@.len()); }
    assert("main.typ"@ != ".."@) by { assert("main.typ"@.len() != ".."@.len()); }
}

/// The project path of `name` (see [`project_path`]).
pub fn project_path_of(name: &str) -> (r: String)
    ensures
        r@ == project_path(name@),
        virtual_path_text(r@) == Some(r@),
        is_plain_segment(name@) ==> r@ == "/"@ + name@,
{
    match normalize_virtual_path(name) {
        Some(p) => p,
        None => {
            proof { lemma_main_is_plain(); }
            match normalize_virtual_path("main.typ") {
                Some(p) => p,
                None => String::from_str("/main.typ"),
            }
        },
    }
}

/// Build a project-rooted [`FileId`] for a virtual file named `name`. A
/// malformed `name` falls back to `main.typ` rather than failing.
pub fn project_file_id(name: &str) -> FileId {
    let path = project_path_of(name);
    project_file_id_at(path.as_str())
}

/// A template read and parsed once, ready to render many times.
#[derive(Clone)]
pub struct PreparedTemplate {
    source: Source,
    root: Option<PathBuf>,
    main_path: String,
}

impl PreparedTemplate {
    /// The project path of the template's own file.
    pub closed spec fn main_file(self) -> Seq<char> {
        self.main_path@
    }

    /// The root directory for file reads, if any.
    pub closed spec fn root_dir(self) -> Option<PathBuf> {
        self.root
    }

    /// The template's text.
    pub closed spec fn text(self) -> Seq<char> {
        source_text(self.source)
    }

    /// Parse template text that was read from the file at `path`. The file's
    /// name (or `main.typ` when it has none) names the template inside the
    /// project, and its parent directory becomes the root.
    pub fn from_file(path: &PathBuf, content: String) -> (t: Self)
        ensures
            virtual_path_text(t.main_file()) == Some(t.main_file()),
            t.main_file() == project_path(file_template_name(path_bytes(*path))),
            t.root_dir() is Some <==> parent_path(path_bytes(*path)) is Some,
            t.root_dir() matches Some(r) ==> parent_path(path_bytes(*path)) == Some(path_bytes(r)),
            t.text() == content@,
    {
        let name = match path_file_name(path) {
            Some(n) => n,
            None => String::from_str("main.typ"),
        };
        let main_path = project_path_of(name.as_str());
        let id = project_file_id_at(main_path.as_str());
        let source = new_source(id, content);
        PreparedTemplate { source, root: path_parent(path), main_path }
    }

    /// Parse in-memory template text. The template is named `main.typ`; `root`
    /// (if any) is the directory file reads are confined to.
    pub fn from_memory(content: String, root: Option<PathBuf>) -> (t: Self)
        ensures
            t.main_file() == "/main.typ"@,
            t.root_dir() == root,
            t.text() == content@,
    {
        let main_path = project_path_of("main.typ");
        proof { lemma_main_is_plain(); }
        let id = project_file_id_at(main_path.as_str());
        let source = new_source(id, content);
        PreparedTemplate { source, root, main_path }
    }

    /// Read-free preparation of a template source whose text is at hand:
    /// in-memory sources are parsed directly; a file path yields `None`
    /// (its text must be read first, see [`from_file`](Self::from_file)).
    pub fn from_in_memory_source(template: TemplateSource) -> (r: Option<Self>)
        ensures
            (template is FilePath) <==> r is None,
            r matches Some(t) ==> t.main_file() == "/main.typ"@,
            r matches Some(t) ==> (template matches TemplateSource::InMemory { root, content } && t.root_dir() == root
                && t.text() == content@),
    {
        match template {
            TemplateSource::FilePath(_) => None,
            TemplateSource::InMemory { content, root } => Some(Self::from_memory(content, root)),
        }
    }

    /// The parsed template source.
    pub closed spec fn parsed_source(self) -> Source {
        self.source
    }

    /// The parsed template source.
    pub fn source(&self) -> (r: &Source)
        ensures
            *r == self.parsed_source(),
    {
        &self.source
    }

    /// The root directory for file reads, if any.
    pub fn root(&self) -> (r: &Option<PathBuf>)
        ensures
            *r == self.root_dir(),
    {
        &self.root
    }

    /// The project path of the template's own file.
    pub fn main_path(&self) -> (r: &String)
        ensures
            r@ == self.main_file(),
    {
        &self.main_path
    }
}

/// A data set bound to a template: the `sys.inputs` dictionary and the
/// virtual files keyed by the project path the template reads them at
/// (typst's file id for a path is [`project_file_id`] of it).
pub struct BoundData {
    /// The `sys.inputs` dictionary, if any.
    pub inputs: Option<Dict>,
    /// The virtual files at their project paths, in the order they were
    /// added.
    pub files: Vec<(String, Vec<u8>)>,
}

/// The message of the error for a virtual file that would shadow the
/// template's own file.
pub open spec fn collision_message(name: Seq<char>) -> Seq<char> {
    "virtual file '"@ + name + "' collides with the template's file name"@
}

/// Whether the `i`-th name lives at the template's own project path.
pub open spec fn collides(names: Seq<Seq<char>>, main: Seq<char>, i: int) -> bool {
    project_path(names[i]) == main
}

/// Some name lives at the template's own project path.
pub open spec fn has_collision(names: Seq<Seq<char>>, main: Seq<char>) -> bool {
    exists|i: int| 0 <= i < names.len() && collides(names, main, i)
}

/// `m` is the collision message of the first name that lives at the
/// template's own project path.
pub open spec fn first_collision_message(names: Seq<Seq<char>>, main: Seq<char>, m: Seq<char>) -> bool {
    exists|i: int|
        0 <= i < names.len() && collides(names, main, i) && (forall|k: int| 0 <= k < i ==> !collides(names, main, k))
            && m == collision_message(names[i])
}

/// Bind `data` to `template`: map each virtual file name to the project path
/// the template reads it at. A file whose project path is the template's own
/// is rejected (it would otherwise silently shadow the template), naming the
/// first such file.
pub fn bind_data(template: &PreparedTemplate, data: DataSet) -> (r: Result<BoundData>)
    ensures
        r is Err <==> has_collision(names_of(data.file_list()), template.main_file()),
        r is Err ==> (r matches Err(PublishError::InvalidTemplate(m)) && first_collision_message(
            names_of(data.file_list()),
            template.main_file(),
            m@,
        )),
        r matches Ok(b) ==> b.inputs == data.input_dict() && b.files.len() == data.file_list().len()
            && forall|i: int| #![trigger b.files@[i]] 0 <= i < b.files.len() ==> b.files@[i].1@ == data.file_list()[i].1
                && b.files@[i].0@ == project_path(data.file_list()[i].0),
{
    let ghost names = names_of(data.file_list());
    let ghost main = template.main_file();
    let ghost list = data.file_list();
    let (inputs, files) = data.into_parts();
    let mut out: Vec<(String, Vec<u8>)> = Vec::new();
    let mut i: usize = 0;
    while i < files.len()
        invariant
            i <= files.len(),
            files_view(files@) == list,
            list == data.file_list(),
            names == names_of(list),
            main == template.main_file(),
            out.len() == i,
            forall|k: int| 0 <= k < i ==> !collides(names, main, k),
            forall|k: int| #![trigger out@[k]] 0 <= k < i ==> out@[k].1@ == list[k].1 && out@[k].0@ == project_path(list[k].0),
        decreases files.len() - i,
    {
        let name = &files[i].0;
        let path = project_path_of(name.as_str());
        assert(names[i as int] == name@);
        if path == template.main_path {
            let mut msg = String::from_str("virtual file '");
            msg.append(name.as_str());
            msg.append("' collides with the template's file name");
            assert(names.len() == files@.len());
            assert(path@ == main);
            assert(project_path(names[i as int]) == main);
            assert(collides(names, main, i as int));
            assert(has_collision(names, main));
            assert(first_collision_message(names, main, msg@));
            assert(msg@ == collision_message(names[i as int]));
            return Err(PublishError::InvalidTemplate(msg));
        }
        let bytes = files[i].1.clone();
        assert(bytes@ == list[i as int].1 && name@ == list[i as int].0) by {
            assert(files_view(files@)[i as int] == (files@[i as int].0@, files@[i as int].1@));
        }
        out.push((path, bytes));
        i = i + 1;
    }
    Ok(BoundData { inputs, files: out })
}

/// Why a file could not be resolved to a path on disk.
#[derive(Debug, Clone, Copy, PartialEq, Eq, Structural)]
pub enum FileDenial {
    /// The file belongs to a package (`@preview/...`); package imports are
    /// not supported.
    PackageImport,
    /// There is no root to read from, or the path would leave the root.
    AccessDenied,
}

/// Whether a file id belongs to a package (`VirtualRoot::Package`).
#[verifier::external_body]
fn is_package_file(id: &FileId) -> bool {
    matches!(id.root(), typst::syntax::VirtualRoot::Package(_))
}

/// The file's path under `root` (`VirtualPath::realize`), or `None` when it
/// would lexically escape the root. `realize` starts from `root` and pushes
/// one plain component per segment, so a path it gives begins with the
/// root's bytes.
#[verifier::external_body]
fn realize_under(id: &FileId, root: &PathBuf) -> (r: Option<PathBuf>)
    ensures
        r matches Some(p) ==> path_bytes(*root).is_prefix_of(path_bytes(p)),
{
    id.vpath().realize(root).ok()
}

/// The access rule for a file, given what is known of it: whether it
/// belongs to a package, whether a root is set, and its path under that root
/// (`None` when it would escape the root).
pub open spec fn file_access(in_package: bool, has_root: bool, realized: Option<PathBuf>) -> std::result::Result<PathBuf, FileDenial> {
    if in_package {
        Err(FileDenial::PackageImport)
    } else if !has_root {
        Err(FileDenial::AccessDenied)
    } else {
        match realized {
            Some(p) => Ok(p),
            None => Err(FileDenial::AccessDenied),
        }
    }
}

/// Decide a file read from what is known of the file: package files are
/// denied first; without a root every read is denied; otherwise the read goes
/// to the file's path under the root, and a path that would escape the root
/// is denied.
pub fn decide_file_access(in_package: bool, has_root: bool, realized: Option<PathBuf>) -> (r: std::result::Result<PathBuf, FileDenial>)
    ensures
        r == file_access(in_package, has_root, realized),
{
    if in_package {
        Err(FileDenial::PackageImport)
    } else if !has_root {
        Err(FileDenial::AccessDenied)
    } else {
        match realized {
            Some(p) => Ok(p),
            None => Err(FileDenial::AccessDenied),
        }
    }
}

/// Resolve a file id to a path on disk. Package files are denied first;
/// without a root every read is denied; otherwise the path is confined to the
/// root and any escape is denied. Whether the id belongs to a package and
/// where it lies under the root are typst's answers; the rule applied to them
/// is [`file_access`].
pub fn resolve_path(root: &Option<PathBuf>, id: &FileId) -> (r: std::result::Result<PathBuf, FileDenial>)
    ensures
        exists|in_package: bool, realized: Option<PathBuf>| r == #[trigger] file_access(in_package, root is Some, realized),
        root is None ==> r is Err,
        r is Ok ==> root is Some,
        r matches Ok(p) ==> (*root matches Some(dir) && path_bytes(dir).is_prefix_of(path_bytes(p))),
{
    let in_package = is_package_file(id);
    let realized = match root {
        Some(dir) => if in_package { None } else { realize_under(id, dir) },
        None => None,
    };
    let r = decide_file_access(in_package, root.is_some(), realized);
    assert(r == file_access(in_package, root is Some, realized));
    r
}

} // verus!
