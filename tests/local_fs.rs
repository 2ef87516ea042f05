use std::collections::BTreeMap;

use filestore::errors::ApiError;
use filestore::storage::local_fs::SavePlan;
use filestore::storage::{FileData, LocalFileStorage};

/// A directory held in memory: file name to contents.
struct Dir {
    files: BTreeMap<String, Vec<u8>>,
}

impl Dir {
    fn new() -> Self {
        Dir { files: BTreeMap::new() }
    }

    fn save(&mut self, store: &LocalFileStorage, file: FileData) -> Result<String, ApiError> {
        let plan: SavePlan = store.plan_save(file);
        let in_use = self.files.contains_key(&plan.meta_file) || self.files.contains_key(&plan.content_file);
        if in_use {
            return LocalFileStorage::save_result(plan, true, false, false);
        }
        self.files
            .insert(plan.meta_file.clone(), plan.meta_text.clone().into_bytes());
        self.files
            .insert(plan.content_file.clone(), plan.bytes.clone());
        LocalFileStorage::save_result(plan, false, true, true)
    }

    fn text(&self, name: &str) -> Option<String> {
        self.files
            .get(name)
            .map(|b| String::from_utf8_lossy(b).into_owned())
    }

    fn get(&self, id: &str) -> Result<(Vec<u8>, Option<String>), ApiError> {
        let meta = self.text(&LocalFileStorage::meta_file_name(id));
        let content = self
            .files
            .get(&LocalFileStorage::content_file_name(id))
            .cloned();
        LocalFileStorage::get_result(meta, content)
    }

    fn list(&self) -> Result<Vec<(String, Option<String>)>, ApiError> {
        let entries = self
            .files
            .keys()
            .map(|name| (name.clone(), self.text(&LocalFileStorage::meta_file_name(name))))
            .collect();
        LocalFileStorage::list_result(Some(entries))
    }

    fn delete(&mut self, id: &str) -> Result<(), ApiError> {
        let removed = self
            .files
            .remove(&LocalFileStorage::content_file_name(id))
            .is_some();
        self.files.remove(&LocalFileStorage::meta_file_name(id));
        LocalFileStorage::delete_result(removed)
    }
}

fn is_uuid_v4(s: &str) -> bool {
    let c: Vec<char> = s.chars().collect();
    c.len() == 36
        && c.iter().enumerate().all(|(i, ch)| {
            if [8, 13, 18, 23].contains(&i) {
                *ch == '-'
            } else {
                ch.is_ascii_digit() || ('a'..='f').contains(ch)
            }
        })
        && c[14] == '4'
        && ['8', '9', 'a', 'b'].contains(&c[19])
}

fn open() -> LocalFileStorage {
    LocalFileStorage::new("./uploads".to_string(), true).unwrap()
}

fn upload(bytes: &[u8], content_type: Option<&str>, filename: Option<&str>) -> FileData {
    FileData {
        bytes: bytes.to_vec(),
        content_type: content_type.map(|s| s.to_string()),
        filename: filename.map(|s| s.to_string()),
    }
}

#[test]
fn open_keeps_path() {
    let store = open();
    assert_eq!(store.storage_path(), "./uploads");
}

#[test]
fn open_fails_without_directory() {
    assert!(matches!(
        LocalFileStorage::new("/nowhere".to_string(), false),
        Err(ApiError::Internal)
    ));
}

#[test]
fn file_names() {
    assert_eq!(LocalFileStorage::content_file_name("abc"), "abc");
    assert_eq!(LocalFileStorage::meta_file_name("abc"), "abc.meta");
    assert!(LocalFileStorage::is_meta_file_name("abc.meta"));
    assert!(LocalFileStorage::is_meta_file_name(".meta"));
    assert!(!LocalFileStorage::is_meta_file_name("abc"));
    assert!(!LocalFileStorage::is_meta_file_name("meta"));
    assert!(!LocalFileStorage::is_meta_file_name("abc.meta.bak"));
}

#[test]
fn metadata_document_text() {
    let doc = LocalFileStorage::meta_document(&upload(b"x", Some("text/plain"), Some("a.txt")));
    assert_eq!(doc, r#"{"content_type":"text/plain","filename":"a.txt"}"#);
    let doc = LocalFileStorage::meta_document(&upload(b"x", None, None));
    assert_eq!(doc, r#"{"content_type":null,"filename":null}"#);
}

#[test]
fn plan_uses_fresh_id() {
    let store = open();
    let p1 = store.plan_save(upload(b"hi", None, Some("n")));
    let p2 = store.plan_save(upload(b"hi", None, Some("n")));
    assert_ne!(p1.id, p2.id);
    assert!(is_uuid_v4(&p1.id));
    assert_eq!(p1.content_file, p1.id);
    assert_eq!(p1.meta_file, format!("{}.meta", p1.id));
    assert_eq!(p1.bytes, b"hi".to_vec());
    assert_eq!(p1.meta_text, r#"{"content_type":null,"filename":"n"}"#);
}

#[test]
fn failed_writes_are_internal() {
    let store = open();
    let plan = store.plan_save(upload(b"x", None, None));
    assert_eq!(LocalFileStorage::save_result(plan, false, false, false), Err(ApiError::Internal));
    let plan = store.plan_save(upload(b"x", None, None));
    assert_eq!(LocalFileStorage::save_result(plan, false, true, false), Err(ApiError::Internal));
    let plan = store.plan_save(upload(b"x", None, None));
    let id = plan.id.clone();
    assert_eq!(LocalFileStorage::save_result(plan, false, true, true), Ok(id));
    let plan = store.plan_save(upload(b"x", None, None));
    assert_eq!(LocalFileStorage::save_result(plan, true, true, true), Err(ApiError::Internal));
}

#[test]
fn local_hello_lifecycle() {
    let store = open();
    let mut dir = Dir::new();
    let id = dir
        .save(&store, upload(b"hello", Some("text/plain"), Some("a.txt")))
        .unwrap();
    assert_eq!(
        dir.get(&id),
        Ok((b"hello".to_vec(), Some("text/plain".to_string())))
    );
    assert!(dir
        .list()
        .unwrap()
        .contains(&(id.clone(), Some("a.txt".to_string()))));
    assert_eq!(dir.delete(&id), Ok(()));
    assert_eq!(dir.get(&id), Err(ApiError::NotFound));
    assert_eq!(dir.delete(&id), Err(ApiError::NotFound));
    assert_eq!(dir.list(), Ok(Vec::new()));
}

#[test]
fn local_unknown_id() {
    let mut dir = Dir::new();
    assert_eq!(dir.get("missing"), Err(ApiError::NotFound));
    assert_eq!(dir.delete("missing"), Err(ApiError::NotFound));
}

#[test]
fn corrupt_metadata_get_internal_list_skips() {
    let store = open();
    let mut dir = Dir::new();
    let good = dir.save(&store, upload(b"g", None, Some("good"))).unwrap();
    let bad = dir.save(&store, upload(b"b", None, Some("bad"))).unwrap();
    dir.files
        .insert(LocalFileStorage::meta_file_name(&bad), b"{not json".to_vec());
    assert_eq!(dir.get(&bad), Err(ApiError::Internal));
    assert_eq!(dir.list(), Ok(vec![(good, Some("good".to_string()))]));
}

#[test]
fn get_outcomes() {
    assert_eq!(
        LocalFileStorage::get_result(None, Some(b"x".to_vec())),
        Err(ApiError::NotFound)
    );
    assert_eq!(
        LocalFileStorage::get_result(Some("[1,".to_string()), Some(b"x".to_vec())),
        Err(ApiError::Internal)
    );
    assert_eq!(
        LocalFileStorage::get_result(Some("{}".to_string()), None),
        Err(ApiError::NotFound)
    );
    assert_eq!(
        LocalFileStorage::get_result(Some("{}".to_string()), Some(b"x".to_vec())),
        Ok((b"x".to_vec(), None))
    );
    assert_eq!(
        LocalFileStorage::get_result(
            Some(r#"{"content_type":"not a mime","filename":null}"#.to_string()),
            Some(b"x".to_vec())
        ),
        Ok((b"x".to_vec(), None))
    );
    assert_eq!(
        LocalFileStorage::get_result(
            Some(r#"{"content_type":"image/png","filename":"p"}"#.to_string()),
            Some(vec![1, 2])
        ),
        Ok((vec![1, 2], Some("image/png".to_string())))
    );
}

#[test]
fn list_outcomes() {
    assert_eq!(LocalFileStorage::list_result(None), Err(ApiError::Internal));
    let entries = vec![
        ("a".to_string(), Some(r#"{"content_type":null,"filename":"x"}"#.to_string())),
        ("a.meta".to_string(), Some("whatever".to_string())),
        ("b".to_string(), None),
        ("c".to_string(), Some("42".to_string())),
        ("d".to_string(), Some("nope".to_string())),
    ];
    assert_eq!(
        LocalFileStorage::list_result(Some(entries)),
        Ok(vec![
            ("a".to_string(), Some("x".to_string())),
            ("c".to_string(), None),
        ])
    );
}

#[test]
fn entry_listing_cases() {
    assert_eq!(
        LocalFileStorage::entry_listing("z".to_string(), Some(r#"{"filename":"f"}"#.to_string())),
        Some(("z".to_string(), Some("f".to_string())))
    );
    assert_eq!(
        LocalFileStorage::entry_listing("z.meta".to_string(), Some("{}".to_string())),
        None
    );
}

#[test]
fn delete_outcomes() {
    assert_eq!(LocalFileStorage::delete_result(true), Ok(()));
    assert_eq!(LocalFileStorage::delete_result(false), Err(ApiError::NotFound));
}

#[test]
fn get_with_parsed_field() {
    assert_eq!(
        LocalFileStorage::get_with_field(None, Some(b"x".to_vec())),
        Err(ApiError::Internal)
    );
    assert_eq!(
        LocalFileStorage::get_with_field(Some(None), None),
        Err(ApiError::NotFound)
    );
    assert_eq!(
        LocalFileStorage::get_with_field(Some(None), Some(b"x".to_vec())),
        Ok((b"x".to_vec(), None))
    );
    assert_eq!(
        LocalFileStorage::get_with_field(Some(Some("text/html".to_string())), Some(Vec::new())),
        Ok((Vec::new(), Some("text/html".to_string())))
    );
}

#[test]
fn entry_listing_unreadable_metadata() {
    assert_eq!(LocalFileStorage::entry_listing("z".to_string(), None), None);
    assert_eq!(
        LocalFileStorage::entry_listing("z".to_string(), Some("{oops".to_string())),
        None
    );
    assert_eq!(
        LocalFileStorage::entry_listing("z".to_string(), Some("[]".to_string())),
        Some(("z".to_string(), None))
    );
}

#[test]
fn plain_file_names() {
    assert!(LocalFileStorage::is_plain_file_name("abc"));
    assert!(LocalFileStorage::is_plain_file_name("a.meta"));
    assert!(LocalFileStorage::is_plain_file_name("..."));
    assert!(!LocalFileStorage::is_plain_file_name(""));
    assert!(!LocalFileStorage::is_plain_file_name("."));
    assert!(!LocalFileStorage::is_plain_file_name(".."));
    assert!(!LocalFileStorage::is_plain_file_name("../x"));
    assert!(!LocalFileStorage::is_plain_file_name("a/b"));
    assert!(!LocalFileStorage::is_plain_file_name("a\\b"));
    let store = open();
    let plan = store.plan_save(upload(b"x", None, None));
    assert!(LocalFileStorage::is_plain_file_name(&plan.id));
}
