//! The data handed to a template render.

use vstd::prelude::*;

use typst::foundations::Dict;

use crate::error::{PublishError, Result};

use crate::util::copy_slice;

verus! {

#[verifier::external_type_specification]
#[verifier::external_body]
pub struct ExDict(Dict);

#[verifier::external_type_specification]
#[verifier::external_body]
pub struct ExJsonValue(serde_json::Value);

/// The data handed to a template render: an optional `sys.inputs` dictionary
/// plus zero or more **virtual files** the template can load (`json("...")`,
/// `csv("...")`, `image("...")`, `read("...")`, ...).
///
/// Data conversion happens eagerly in the builder methods (so serialization
/// errors surface here, not at render time), and adding a file whose name
/// duplicates an earlier one fails with [`PublishError::InvalidTemplate`].
#[derive(Debug)]
pub struct DataSet {
    inputs: Option<Dict>,
    files: Vec<(String, Vec<u8>)>,
}

/// The names and contents of a file list, as plain values.
pub open spec fn files_view(files: Seq<(String, Vec<u8>)>) -> Seq<(Seq<char>, Seq<u8>)> {
    files.map_values(|f: (String, Vec<u8>)| (f.0@, f.1@))
}

/// The names of a file list, in order.
pub open spec fn names_of(files: Seq<(Seq<char>, Seq<u8>)>) -> Seq<Seq<char>> {
    files.map_values(|f: (Seq<char>, Seq<u8>)| f.0)
}

/// No two files of the list share a name.
pub open spec fn names_distinct(files: Seq<(Seq<char>, Seq<u8>)>) -> bool {
    forall|i: int, j: int| 0 <= i < files.len() && 0 <= j < files.len() && i != j
        ==> files[i].0 != files[j].0
}

/// The message of the error for a file name that is already taken.
pub open spec fn duplicate_file_message(name: Seq<char>) -> Seq<char> {
    "duplicate virtual file '"@ + name + "'"@
}

/// `Dict::clone`: another handle to the same dictionary (typst's `Dict` is a
/// reference-counted map), so the copy equals the original.
pub assume_specification[ <Dict as Clone>::clone ](d: &Dict) -> (r: Dict)
    ensures
        r == *d,
;

/// Serializes a JSON value to its compact text (`serde_json::to_vec`).
///
/// Claims that this succeeds: a `Value`'s own serialization never fails (its
/// map keys are strings, non-finite numbers cannot occur), and writing into a
/// vector cannot fail. Nothing is claimed of the bytes.
#[verifier::external_body]
fn json_bytes(value: &serde_json::Value) -> (r: std::result::Result<Vec<u8>, serde_json::Error>)
    ensures
        r is Ok,
{
    serde_json::to_vec(value)
}

/// Converts a JSON value into a typst value (typst's own `Deserialize for
/// Value`, the conversion used by the template-side `json()` loader) and keeps
/// it when it is a dictionary.
#[verifier::external_body]
fn typst_dict_from_json(value: serde_json::Value) -> Option<Dict> {
    match serde_json::from_value::<typst::foundations::Value>(value) {
        Ok(typst::foundations::Value::Dict(dict)) => Some(dict),
        _ => None,
    }
}

/// An empty typst dictionary (`Dict::new`).
#[verifier::external_body]
fn empty_dict() -> Dict {
    Dict::new()
}

/// Convert a JSON value into a typst [`Dict`] for injection via `sys.inputs`.
/// Anything that isn't a JSON object yields an empty dict, matching the
/// `sys.inputs` contract, which is always a dict.
fn json_to_dict(value: serde_json::Value) -> Dict {
    match typst_dict_from_json(value) {
        Some(dict) => dict,
        None => empty_dict(),
    }
}

impl DataSet {
    #[verifier::type_invariant]
    spec fn inv(self) -> bool {
        names_distinct(files_view(self.files@))
    }

    /// The virtual files, names and contents, in the order they were added.
    pub closed spec fn file_list(self) -> Seq<(Seq<char>, Seq<u8>)> {
        files_view(self.files@)
    }

    /// The `sys.inputs` dictionary, if one was set.
    pub closed spec fn input_dict(self) -> Option<Dict> {
        self.inputs
    }

    /// An empty data set, no `sys.inputs`, no files.
    pub fn new() -> (ds: Self)
        ensures
            ds.input_dict() is None,
            ds.file_list() == Seq::<(Seq<char>, Seq<u8>)>::empty(),
    {
        let ds = DataSet { inputs: None, files: Vec::new() };
        assert(ds.file_list() =~= Seq::<(Seq<char>, Seq<u8>)>::empty());
        ds
    }

    /// Build a data set whose `sys.inputs` is `data`. A JSON value that is not
    /// an object yields an empty dictionary.
    pub fn from_inputs(data: serde_json::Value) -> (r: Result<Self>)
        ensures
            r matches Ok(ds) && ds.input_dict() is Some && ds.file_list().len() == 0,
    {
        Self::new().inputs(data)
    }

    /// Build a data set whose `sys.inputs` is a pre-built typst [`Dict`].
    pub fn from_dict(dict: Dict) -> (ds: Self)
        ensures
            ds.input_dict() == Some(dict),
            ds.file_list().len() == 0,
    {
        DataSet { inputs: Some(dict), files: Vec::new() }
    }

    /// Build a data set with a single virtual JSON file, loaded by the template
    /// via `json("<name>")`.
    pub fn from_json_file(name: String, data: serde_json::Value) -> (r: Result<Self>)
        ensures
            r matches Ok(ds) && ds.input_dict() is None && ds.file_list().len() == 1
                && ds.file_list()[0].0 == name@,
    {
        Self::new().json_file(name, data)
    }

    /// Set `sys.inputs` from a JSON value (replacing any previous inputs).
    pub fn inputs(self, data: serde_json::Value) -> (r: Result<Self>)
        ensures
            r matches Ok(ds) && ds.input_dict() is Some && ds.file_list() == self.file_list(),
    {
        proof { use_type_invariant(&self); }
        let DataSet { inputs: _, files } = self;
        Ok(DataSet { inputs: Some(json_to_dict(data)), files })
    }

    /// Set `sys.inputs` from a pre-built typst [`Dict`] (replacing any previous
    /// inputs).
    pub fn inputs_dict(self, dict: Dict) -> (ds: Self)
        ensures
            ds.input_dict() == Some(dict),
            ds.file_list() == self.file_list(),
    {
        proof { use_type_invariant(&self); }
        let DataSet { inputs: _, files } = self;
        DataSet { inputs: Some(dict), files }
    }

    /// Add a virtual JSON file named `name` (the compact JSON text of `data`),
    /// loadable via `json("<name>")`.
    pub fn json_file(self, name: String, data: serde_json::Value) -> (r: Result<Self>)
        ensures
            names_of(self.file_list()).contains(name@) ==> (r matches Err(PublishError::InvalidTemplate(m))
                && m@ == duplicate_file_message(name@)),
            !names_of(self.file_list()).contains(name@) ==> (r matches Ok(ds)
                && ds.input_dict() == self.input_dict()
                && ds.file_list().len() == self.file_list().len() + 1
                && ds.file_list().drop_last() == self.file_list()
                && ds.file_list().last().0 == name@),
    {
        match json_bytes(&data) {
            Ok(bytes) => self.file(name, bytes),
            Err(e) => Err(PublishError::InvalidJson(e)),
        }
    }

    /// Whether a file named `name` was already added.
    fn has_file(&self, name: &String) -> (r: bool)
        ensures
            r == names_of(self.file_list()).contains(name@),
    {
        let mut i: usize = 0;
        while i < self.files.len()
            invariant
                i <= self.files.len(),
                forall|k: int| 0 <= k < i ==> self.files@[k].0@ != name@,
            decreases self.files.len() - i,
        {
            if self.files[i].0 == *name {
                assert(names_of(self.file_list())[i as int] == name@);
                return true;
            }
            i = i + 1;
        }
        assert(!names_of(self.file_list()).contains(name@)) by {
            if names_of(self.file_list()).contains(name@) {
                let k = choose|k: int| 0 <= k < names_of(self.file_list()).len()
                    && names_of(self.file_list())[k] == name@;
                assert(self.files@[k].0@ == name@);
            }
        }
        false
    }

    /// Add a virtual file named `name` with raw `bytes`.
    ///
    /// Fails with [`PublishError::InvalidTemplate`] if `name` duplicates a file
    /// already added to this set; otherwise the file is appended.
    pub fn file(self, name: String, bytes: Vec<u8>) -> (r: Result<Self>)
        ensures
            names_of(self.file_list()).contains(name@) ==> (r matches Err(PublishError::InvalidTemplate(m))
                && m@ == duplicate_file_message(name@)),
            !names_of(self.file_list()).contains(name@) ==> (r matches Ok(ds)
                && ds.input_dict() == self.input_dict()
                && ds.file_list() == self.file_list().push((name@, bytes@))),
    {
        proof { use_type_invariant(&self); }
        if self.has_file(&name) {
            let mut msg = String::from_str("duplicate virtual file '");
            msg.append(name.as_str());
            msg.append("'");
            return Err(PublishError::InvalidTemplate(msg));
        }
        let DataSet { inputs, mut files } = self;
        let ghost before = files@;
        let ghost entry = (name@, bytes@);
        files.push((name, bytes));
        assert(files_view(files@) =~= files_view(before).push(entry));
        proof {
            assert forall|i: int, j: int| 0 <= i < files_view(files@).len() && 0 <= j < files_view(files@).len()
                && i != j implies files_view(files@)[i].0 != files_view(files@)[j].0 by {
                if i == before.len() as int {
                    assert(names_of(files_view(before))[j] == files_view(before)[j].0);
                } else if j == before.len() as int {
                    assert(names_of(files_view(before))[i] == files_view(before)[i].0);
                }
            }
        }
        Ok(DataSet { inputs, files })
    }

    /// The `sys.inputs` dictionary, if set.
    pub fn inputs_ref(&self) -> (r: &Option<Dict>)
        ensures
            *r == self.input_dict(),
    {
        &self.inputs
    }

    /// The virtual files, in the order they were added.
    pub fn files(&self) -> (r: &Vec<(String, Vec<u8>)>)
        ensures
            files_view(r@) == self.file_list(),
            names_distinct(self.file_list()),
    {
        proof { use_type_invariant(self); }
        &self.files
    }

    /// Splits the data set into its inputs and its files.
    pub fn into_parts(self) -> (r: (Option<Dict>, Vec<(String, Vec<u8>)>))
        ensures
            r.0 == self.input_dict(),
            files_view(r.1@) == self.file_list(),
    {
        let DataSet { inputs, files } = self;
        (inputs, files)
    }
}


/// A file name, once added, is taken: the data set that results from adding
/// it holds it, so adding the same name again fails.
pub proof fn lemma_added_name_is_taken(before: DataSet, after: DataSet, name: Seq<char>, bytes: Seq<u8>)
    requires
        after.file_list() == before.file_list().push((name, bytes)),
    ensures
        names_of(after.file_list()).contains(name),
        names_of(after.file_list()) == names_of(before.file_list()).push(name),
{
    assert(names_of(after.file_list()) =~= names_of(before.file_list()).push(name));
    assert(names_of(after.file_list())[before.file_list().len() as int] == name);
}

impl Clone for DataSet {
    /// A copy with the same inputs and the same files.
    fn clone(&self) -> (ds: Self)
        ensures
            ds.file_list() == self.file_list(),
            ds.input_dict() == self.input_dict(),
    {
        proof { use_type_invariant(self); }
        let mut files: Vec<(String, Vec<u8>)> = Vec::new();
        let mut i: usize = 0;
        while i < self.files.len()
            invariant
                i <= self.files.len(),
                names_distinct(files_view(self.files@)),
                files_view(files@) == files_view(self.files@).take(i as int),
            decreases self.files.len() - i,
        {
            let name = self.files[i].0.clone();
            let bytes = copy_slice(self.files[i].1.as_slice());
            let ghost prev = files@;
            let ghost entry = (name@, bytes@);
            files.push((name, bytes));
            assert(files_view(files@) =~= files_view(prev).push(entry));
            assert(files_view(files@) =~= files_view(self.files@).take(i + 1));
            i = i + 1;
        }
        assert(files_view(self.files@).take(self.files.len() as int) =~= files_view(self.files@));
        DataSet { inputs: self.inputs.clone(), files }
    }
}

impl Default for DataSet {
    fn default() -> (ds: Self)
        ensures
            ds.input_dict() is None,
            ds.file_list().len() == 0,
    {
        Self::new()
    }
}

} // verus!
