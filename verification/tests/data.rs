use easi_publish::{DataSet, PublishError};

fn json(text: &str) -> serde_json::Value {
    serde_json::from_str(text).unwrap()
}

#[test]
fn dataset_rejects_duplicate_file_names() {
    let err = DataSet::new()
        .file("a.json".to_owned(), b"{}".to_vec())
        .unwrap()
        .file("a.json".to_owned(), b"{}".to_vec())
        .unwrap_err();
    assert!(matches!(err, PublishError::InvalidTemplate(_)), "got {err:?}");
}

#[test]
fn duplicate_file_error_names_the_file() {
    let err = DataSet::new()
        .file("rows.csv".to_owned(), b"a,b".to_vec())
        .unwrap()
        .file("rows.csv".to_owned(), b"c,d".to_vec())
        .unwrap_err();
    match err {
        PublishError::InvalidTemplate(msg) => assert_eq!(msg, "duplicate virtual file 'rows.csv'"),
        other => panic!("got {other:?}"),
    }
}

#[test]
fn new_data_set_is_empty() {
    let data = DataSet::new();
    assert!(data.inputs_ref().is_none());
    assert!(data.files().is_empty());
    let default = DataSet::default();
    assert!(default.inputs_ref().is_none());
    assert!(default.files().is_empty());
}

#[test]
fn files_are_kept_in_order_with_their_bytes() {
    let data = DataSet::new()
        .file("note.txt".to_owned(), b"ignored".to_vec())
        .unwrap()
        .file("logo.png".to_owned(), vec![0u8; 4])
        .unwrap();
    let files = data.files();
    assert_eq!(files.len(), 2);
    assert_eq!(files[0].0, "note.txt");
    assert_eq!(files[0].1, b"ignored".to_vec());
    assert_eq!(files[1].0, "logo.png");
    assert_eq!(files[1].1, vec![0u8; 4]);
}

#[test]
fn json_file_holds_the_compact_json_text() {
    let data = DataSet::from_json_file("rows.json".to_owned(), json("[1, 2, 3]")).unwrap();
    assert!(data.inputs_ref().is_none());
    assert_eq!(data.files().len(), 1);
    assert_eq!(data.files()[0].0, "rows.json");
    assert_eq!(data.files()[0].1, b"[1,2,3]".to_vec());
}

#[test]
fn inputs_and_files_combine() {
    let data = DataSet::new()
        .inputs(json(r#"{ "title": "Report" }"#))
        .unwrap()
        .json_file("rows.json".to_owned(), json("[1, 2, 3]"))
        .unwrap()
        .file("note.txt".to_owned(), b"ignored".to_vec())
        .unwrap();
    assert!(data.inputs_ref().is_some());
    let names: Vec<&str> = data.files().iter().map(|(n, _)| n.as_str()).collect();
    assert_eq!(names, vec!["rows.json", "note.txt"]);
}

#[test]
fn inputs_replace_earlier_inputs_and_keep_files() {
    let data = DataSet::new()
        .file("a.txt".to_owned(), b"x".to_vec())
        .unwrap()
        .inputs(json(r#"{ "n": 1 }"#))
        .unwrap()
        .inputs(json(r#"{ "n": 2 }"#))
        .unwrap();
    assert!(data.inputs_ref().is_some());
    assert_eq!(data.files().len(), 1);
    assert_eq!(data.files()[0].0, "a.txt");
}

#[test]
fn non_object_inputs_become_an_empty_dictionary() {
    let data = DataSet::from_inputs(json("[1, 2]")).unwrap();
    let dict = data.inputs_ref().as_ref().unwrap();
    assert_eq!(dict.len(), 0);
    let data = DataSet::from_inputs(json(r#"{ "name": "Acme", "n": 3 }"#)).unwrap();
    assert_eq!(data.inputs_ref().as_ref().unwrap().len(), 2);
}

#[test]
fn dict_inputs_are_taken_as_given() {
    let dict: typst::foundations::Dict = [(
        typst::foundations::Str::from("name"),
        typst::foundations::Value::Str("World".into()),
    )]
    .into_iter()
    .collect();
    let data = DataSet::from_dict(dict.clone());
    assert_eq!(data.inputs_ref().as_ref(), Some(&dict));
    let data = DataSet::new().inputs_dict(dict.clone());
    assert_eq!(data.inputs_ref().as_ref(), Some(&dict));
    assert!(data.files().is_empty());
}

#[test]
fn clone_keeps_files() {
    let data = DataSet::new().file("a.json".to_owned(), b"{}".to_vec()).unwrap();
    let copy = data.clone();
    assert_eq!(copy.files(), data.files());
    let (inputs, files) = copy.into_parts();
    assert!(inputs.is_none());
    assert_eq!(files.len(), 1);
}
