use easi_publish::{
    bind_data, decide_file_access, project_path_of, resolve_path, DataSet, FileDenial, PreparedTemplate, PublishError,
    TemplateSource,
};

#[test]
fn virtual_file_colliding_with_template_name_errors() {
    // An in-memory template is named "main.typ". A virtual file of the same name
    // would shadow it, so it's rejected.
    let template = TemplateSource::InMemory {
        content: "hello".to_owned(),
        root: None,
    };
    let prepared = PreparedTemplate::from_in_memory_source(template).unwrap();
    let data = DataSet::new().file("main.typ".to_owned(), b"x".to_vec()).unwrap();
    let err = bind_data(&prepared, data).err().unwrap();
    assert!(matches!(err, PublishError::InvalidTemplate(_)), "got {err:?}");
}

#[test]
fn collision_message_names_the_first_colliding_file() {
    let prepared = PreparedTemplate::from_memory("hello".to_owned(), None);
    let data = DataSet::new()
        .file("data.json".to_owned(), b"{}".to_vec())
        .unwrap()
        .file("./main.typ".to_owned(), b"x".to_vec())
        .unwrap()
        .file("main.typ".to_owned(), b"y".to_vec())
        .unwrap();
    match bind_data(&prepared, data).err().unwrap() {
        PublishError::InvalidTemplate(msg) => {
            assert_eq!(msg, "virtual file './main.typ' collides with the template's file name")
        }
        other => panic!("got {other:?}"),
    }
}

#[test]
fn bound_files_keep_order_and_bytes() {
    let prepared = PreparedTemplate::from_memory("hello".to_owned(), None);
    let data = DataSet::new()
        .file("a.json".to_owned(), b"{}".to_vec())
        .unwrap()
        .file("sub/b.csv".to_owned(), b"1,2".to_vec())
        .unwrap();
    let bound = bind_data(&prepared, data).ok().unwrap();
    assert!(bound.inputs.is_none());
    assert_eq!(bound.files.len(), 2);
    assert_eq!(bound.files[0].1, b"{}".to_vec());
    assert_eq!(bound.files[1].1, b"1,2".to_vec());
    assert_eq!(bound.files[0].0, "/a.json");
    assert_eq!(bound.files[1].0, "/sub/b.csv");
    let id = easi_publish::project_file_id(&bound.files[1].0);
    assert_eq!(id.vpath().get_with_slash(), "/sub/b.csv");
    assert_eq!(id, easi_publish::project_file_id("./sub//b.csv"));
}

#[test]
fn project_paths_are_normalized() {
    assert_eq!(project_path_of("main.typ"), "/main.typ");
    assert_eq!(project_path_of("a.json"), "/a.json");
    assert_eq!(project_path_of("./data//rows.json"), "/data/rows.json");
    assert_eq!(project_path_of("x/../y.txt"), "/y.txt");
}

#[test]
fn malformed_names_fall_back_to_main() {
    // Escaping the root and backslashes are rejected by typst.
    assert_eq!(project_path_of("../secret.txt"), "/main.typ");
    assert_eq!(project_path_of("a\\b.txt"), "/main.typ");
}

#[test]
fn in_memory_template_is_main_typ() {
    let prepared = PreparedTemplate::from_memory("Hello".to_owned(), None);
    assert_eq!(prepared.main_path(), "/main.typ");
    assert!(prepared.root().is_none());
    assert_eq!(prepared.source().text(), "Hello");
    assert!(PreparedTemplate::from_in_memory_source(TemplateSource::FilePath("x.typ".into())).is_none());
}

#[test]
fn file_template_is_named_after_its_file() {
    let path = std::path::PathBuf::from("templates/invoice.typ");
    let prepared = PreparedTemplate::from_file(&path, "= Invoice".to_owned());
    assert_eq!(prepared.main_path(), "/invoice.typ");
    assert_eq!(prepared.root().as_deref(), Some(std::path::Path::new("templates")));
    assert_eq!(prepared.source().text(), "= Invoice");
}

#[test]
fn rootless_template_denies_disk_reads() {
    let id = easi_publish::project_file_id("secrets.txt");
    assert_eq!(resolve_path(&None, &id), Err(FileDenial::AccessDenied));
}

#[test]
fn rooted_template_reads_inside_its_root() {
    let id = easi_publish::project_file_id("data/rows.json");
    let root = Some(std::path::PathBuf::from("/srv/templates"));
    let path = resolve_path(&root, &id).unwrap();
    assert_eq!(path, std::path::PathBuf::from("/srv/templates/data/rows.json"));
}

#[test]
fn package_files_are_denied() {
    let spec: typst::syntax::package::PackageSpec = "@preview/cetz:0.2.2".parse().unwrap();
    let vpath = typst::syntax::VirtualPath::new("lib.typ").unwrap();
    let id = typst::syntax::FileId::new(typst::syntax::RootedPath::new(
        typst::syntax::VirtualRoot::Package(spec),
        vpath,
    ));
    let root = Some(std::path::PathBuf::from("/srv/templates"));
    assert_eq!(resolve_path(&root, &id), Err(FileDenial::PackageImport));
}

#[test]
fn file_access_rule() {
    let p = std::path::PathBuf::from("/srv/t/a.json");
    assert_eq!(decide_file_access(true, true, Some(p.clone())), Err(FileDenial::PackageImport));
    assert_eq!(decide_file_access(true, false, None), Err(FileDenial::PackageImport));
    assert_eq!(decide_file_access(false, false, Some(p.clone())), Err(FileDenial::AccessDenied));
    assert_eq!(decide_file_access(false, true, None), Err(FileDenial::AccessDenied));
    assert_eq!(decide_file_access(false, true, Some(p.clone())), Ok(p));
}
