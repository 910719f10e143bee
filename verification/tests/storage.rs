// Store scenarios, run against an in-memory file system that answers the
// store's requests the way a real one would.

use std::collections::{BTreeMap, BTreeSet};

use serde_json::{Map as JsonMap, Value};
use sideline::disk::{Fetch, Probe, Reply, Request};
use sideline::model::{Settings, Todo};
use sideline::store::{JsonStore, Progress};

/// Files, directories, and paths that refuse to be read or replaced.
struct Disk {
    files: BTreeMap<String, Vec<u8>>,
    dirs: BTreeSet<String>,
    unreadable: BTreeSet<String>,
    pinned: BTreeSet<String>,
    counter: u64,
}

fn parent(path: &str) -> Option<String> {
    path.rfind('/').map(|i| path[..i].to_string())
}

impl Disk {
    fn new() -> Self {
        let mut dirs = BTreeSet::new();
        dirs.insert("/data".to_string());
        Disk { files: BTreeMap::new(), dirs, unreadable: BTreeSet::new(), pinned: BTreeSet::new(), counter: 0 }
    }

    fn tag(&mut self) -> String {
        self.counter += 1;
        format!("1700000000-42-{}", self.counter)
    }

    fn write(&mut self, path: &str, bytes: &[u8]) {
        self.files.insert(path.to_string(), bytes.to_vec());
    }

    fn read(&self, path: &str) -> Option<Vec<u8>> {
        self.files.get(path).cloned()
    }

    fn holds(&self, path: &str) -> bool {
        self.files.contains_key(path) || self.dirs.contains(path)
    }

    fn names_containing(&self, needle: &str) -> Vec<String> {
        self.files.keys().filter(|k| k.contains(needle)).cloned().collect()
    }

    fn fetch<T>(&self, path: &str, parse: fn(&[u8]) -> Result<T, String>) -> Fetch<T> {
        if self.unreadable.contains(path) {
            return Fetch::Failed("sharing violation".to_string());
        }
        if self.dirs.contains(path) {
            return Fetch::Failed("Is a directory".to_string());
        }
        match self.files.get(path) {
            Some(b) => Fetch::Bytes(b.clone(), parse(b)),
            None => Fetch::NotFound("No such file or directory".to_string(), Probe::Absent),
        }
    }

    fn perform<T>(&mut self, request: Request, parse: fn(&[u8]) -> Result<T, String>) -> Reply<T> {
        match request {
            Request::Read(p) => Reply::Fetched(self.fetch(&p, parse)),
            Request::CreateNew(p, b) => {
                let dir_ok = parent(&p).map_or(true, |d| self.dirs.contains(&d));
                if self.holds(&p) || !dir_ok {
                    Reply::Status(Err(format!("cannot create {}", p)))
                } else {
                    self.files.insert(p, b);
                    Reply::Status(Ok(()))
                }
            }
            Request::Replace(from, to) => {
                if self.dirs.contains(&to) || self.pinned.contains(&to) || !self.files.contains_key(&from) {
                    Reply::Status(Err(format!("cannot replace {}", to)))
                } else {
                    let b = self.files.remove(&from).unwrap();
                    self.files.insert(to, b);
                    Reply::Status(Ok(()))
                }
            }
            Request::Discard(p) => {
                self.files.remove(&p);
                Reply::Status(Ok(()))
            }
            Request::CreateParentDir(p) => match parent(&p) {
                Some(d) if self.files.contains_key(&d) => Reply::Status(Err(format!("not a directory: {}", d))),
                Some(d) => {
                    self.dirs.insert(d);
                    Reply::Status(Ok(()))
                }
                None => Reply::Status(Ok(())),
            },
        }
    }
}

// JSON encoding and decoding of the stored types, field by field.

fn todo_value(t: &Todo) -> Value {
    let mut m = JsonMap::new();
    m.insert("text".to_string(), Value::String(t.text.clone()));
    m.insert("done".to_string(), Value::Bool(t.done));
    m.insert("created".to_string(), Value::from(t.created));
    m.insert("notes".to_string(), Value::Array(t.notes.iter().map(|n| Value::String(n.clone())).collect()));
    Value::Object(m)
}

fn encode_todos(todos: &Vec<Todo>) -> Vec<u8> {
    serde_json::to_vec_pretty(&Value::Array(todos.iter().map(todo_value).collect())).unwrap()
}

fn parse_todo(v: &Value) -> Result<Todo, String> {
    let obj = v.as_object().ok_or("expected an object")?;
    for key in obj.keys() {
        if !["text", "done", "created", "notes"].contains(&key.as_str()) {
            return Err(format!("unknown field `{}`", key));
        }
    }
    let text = obj.get("text").and_then(Value::as_str).ok_or("missing text")?.to_string();
    let done = obj.get("done").and_then(Value::as_bool).ok_or("missing done")?;
    let created = obj.get("created").and_then(Value::as_u64).ok_or("missing created")?;
    let notes = match obj.get("notes") {
        None => Vec::new(),
        Some(n) => n
            .as_array()
            .ok_or("notes must be an array")?
            .iter()
            .map(|x| x.as_str().map(|s| s.to_string()).ok_or("note must be a string".to_string()))
            .collect::<Result<Vec<_>, _>>()?,
    };
    Ok(Todo { text, done, created, notes })
}

fn parse_todos(bytes: &[u8]) -> Result<Vec<Todo>, String> {
    let v: Value = serde_json::from_slice(bytes).map_err(|e| e.to_string())?;
    v.as_array().ok_or("expected an array")?.iter().map(parse_todo).collect()
}

fn encode_settings(s: &Settings) -> Vec<u8> {
    let mut m = JsonMap::new();
    m.insert("side".to_string(), Value::String(s.side.clone()));
    m.insert("collapsed".to_string(), Value::Bool(s.collapsed));
    m.insert("ontop".to_string(), Value::Bool(s.ontop));
    m.insert("completed_expanded".to_string(), Value::Bool(s.completed_expanded));
    serde_json::to_vec_pretty(&Value::Object(m)).unwrap()
}

fn parse_settings(bytes: &[u8]) -> Result<Settings, String> {
    let v: Value = serde_json::from_slice(bytes).map_err(|e| e.to_string())?;
    let obj = v.as_object().ok_or("expected an object")?;
    for key in obj.keys() {
        if !["side", "collapsed", "ontop", "completed_expanded"].contains(&key.as_str()) {
            return Err(format!("unknown field `{}`", key));
        }
    }
    let field = |k: &str| obj.get(k).and_then(Value::as_bool).ok_or(format!("missing {}", k));
    Ok(Settings {
        side: obj.get("side").and_then(Value::as_str).ok_or("missing side")?.to_string(),
        collapsed: field("collapsed")?,
        ontop: field("ontop")?,
        completed_expanded: field("completed_expanded")?,
    })
}

// Drivers: carry each multi-step operation through to its end.

const PRIMARY: &str = "/data/todos.json";

fn load<T: sideline::model::Validate>(store: &mut JsonStore<T>, disk: &Disk, parse: fn(&[u8]) -> Result<T, String>) -> Result<T, String> {
    let fetched = disk.fetch(store.path(), parse);
    store.load(fetched)
}

fn save<T: sideline::model::Validate>(
    store: &mut JsonStore<T>,
    disk: &mut Disk,
    value: &T,
    bytes: Vec<u8>,
    parse: fn(&[u8]) -> Result<T, String>,
) -> Result<(), String> {
    let tag = disk.tag();
    let mut progress = store.save(value, bytes, &tag);
    loop {
        match progress {
            Progress::Pending(run, request) => {
                let reply = disk.perform(request, parse);
                progress = store.save_step(run, reply);
            }
            Progress::Finished(result) => return result,
        }
    }
}

fn recover<T: sideline::model::Validate>(
    store: &mut JsonStore<T>,
    disk: &mut Disk,
    parse: fn(&[u8]) -> Result<T, String>,
) -> Result<T, String> {
    let tag = disk.tag();
    let mut progress = store.recover(&tag);
    loop {
        match progress {
            Progress::Pending(run, request) => {
                let reply = disk.perform(request, parse);
                progress = store.recover_step(run, reply);
            }
            Progress::Finished(result) => return result,
        }
    }
}

fn preserve<T: sideline::model::Validate>(store: &JsonStore<T>, disk: &mut Disk, value: &T, bytes: Vec<u8>) -> Result<String, String> {
    let tag = disk.tag();
    let path = store.preserve_unsaved(value, &tag)?;
    match disk.perform::<T>(Request::CreateNew(path.clone(), bytes), |_| Err("unused".to_string())) {
        Reply::Status(Ok(())) => Ok(path),
        Reply::Status(Err(e)) => Err(e),
        Reply::Fetched(_) => unreachable!(),
    }
}

fn todo(text: &str) -> Vec<Todo> {
    vec![Todo { text: text.to_string(), done: false, created: 42, notes: vec!["笔记".to_string()] }]
}

fn store() -> JsonStore<Vec<Todo>> {
    JsonStore::new(PRIMARY.to_string())
}

fn save_todos(store: &mut JsonStore<Vec<Todo>>, disk: &mut Disk, todos: &Vec<Todo>) -> Result<(), String> {
    save(store, disk, todos, encode_todos(todos), parse_todos)
}

#[test]
fn conflict_archive_preserves_dirty_and_external_versions_then_reload_unblocks() {
    let mut disk = Disk::new();
    let mut store = store();
    load(&mut store, &disk, parse_todos).unwrap();
    save_todos(&mut store, &mut disk, &todo("original")).unwrap();
    let external = encode_todos(&todo("external"));
    disk.write(PRIMARY, &external);
    assert!(save_todos(&mut store, &mut disk, &todo("local dirty")).is_err());
    let first = preserve(&store, &mut disk, &todo("local dirty"), encode_todos(&todo("local dirty"))).unwrap();
    let second = preserve(&store, &mut disk, &todo("another snapshot"), encode_todos(&todo("another snapshot"))).unwrap();
    assert_ne!(first, second);
    assert_eq!(disk.read(&first).unwrap(), encode_todos(&todo("local dirty")));
    assert_eq!(disk.read(&second).unwrap(), encode_todos(&todo("another snapshot")));
    assert_eq!(disk.read(PRIMARY).unwrap(), external);
    assert_eq!(load(&mut store, &disk, parse_todos).unwrap()[0].text, "external");
    save_todos(&mut store, &mut disk, &todo("after explicit reload")).unwrap();
}

#[test]
fn archive_survives_failed_reload_and_does_not_change_corrupt_primary() {
    let mut disk = Disk::new();
    let mut store = store();
    disk.write(PRIMARY, b"corrupt external");
    let path = preserve(&store, &mut disk, &todo("unsaved memory"), encode_todos(&todo("unsaved memory"))).unwrap();
    assert!(load(&mut store, &disk, parse_todos).is_err());
    assert_eq!(disk.read(&path).unwrap(), encode_todos(&todo("unsaved memory")));
    assert_eq!(disk.read(PRIMARY).unwrap(), b"corrupt external");
}

#[test]
fn rejected_archive_does_not_revoke_loaded_snapshot_or_create_files() {
    let mut disk = Disk::new();
    let mut store = JsonStore::<Settings>::new("/data/settings.json".to_string());
    let valid = load(&mut store, &disk, parse_settings).unwrap();
    let invalid = Settings { side: "invalid".to_string(), ..valid.clone() };
    assert!(store.preserve_unsaved(&invalid, &disk.tag()).is_err());
    assert!(disk.files.is_empty());
    save(&mut store, &mut disk, &valid, encode_settings(&valid), parse_settings).unwrap();
}

#[test]
fn missing_is_first_use_but_save_requires_load() {
    let mut disk = Disk::new();
    let mut store = store();
    assert!(save_todos(&mut store, &mut disk, &todo("blocked")).is_err());
    assert!(!disk.holds(PRIMARY));
    assert!(load(&mut store, &disk, parse_todos).unwrap().is_empty());
    save_todos(&mut store, &mut disk, &todo("first")).unwrap();
    assert_eq!(disk.read(PRIMARY).unwrap(), encode_todos(&todo("first")));
    assert_eq!(disk.read(&store.backup_path()).unwrap(), encode_todos(&todo("first")));
}

#[test]
fn legacy_array_loads_with_notes_default_and_does_not_rewrite() {
    let mut disk = Disk::new();
    let old = br#"[{"text":"old","done":true,"created":123}]"#;
    disk.write(PRIMARY, old);
    let mut store = store();
    let todos = load(&mut store, &disk, parse_todos).unwrap();
    assert_eq!(todos[0].text, "old");
    assert!(todos[0].done);
    assert_eq!(todos[0].created, 123);
    assert!(todos[0].notes.is_empty());
    assert_eq!(disk.read(PRIMARY).unwrap(), old);
    save_todos(&mut store, &mut disk, &todos).unwrap();
    assert_eq!(disk.read(&store.backup_path()).unwrap(), old);
}

#[test]
fn malformed_unknown_or_wrong_shape_files_are_never_empty_or_overwritten() {
    for data in [
        b"".as_slice(),
        b"{broken",
        b"null",
        b"{}",
        b"[1]",
        b"\xff",
        br#"[{"text":"x","done":false,"created":0,"future":"keep"}]"#,
    ] {
        let mut disk = Disk::new();
        disk.write(PRIMARY, data);
        let mut store = store();
        assert!(load(&mut store, &disk, parse_todos).is_err());
        assert!(save_todos(&mut store, &mut disk, &Vec::new()).is_err());
        assert_eq!(disk.read(PRIMARY).unwrap(), data);
    }
}

#[test]
fn failed_reload_revokes_previous_write_permission() {
    let mut disk = Disk::new();
    let mut store = store();
    load(&mut store, &disk, parse_todos).unwrap();
    save_todos(&mut store, &mut disk, &todo("ok")).unwrap();
    disk.write(PRIMARY, b"corrupt");
    assert!(load(&mut store, &disk, parse_todos).is_err());
    assert!(save_todos(&mut store, &mut disk, &todo("no")).is_err());
    assert_eq!(disk.read(PRIMARY).unwrap(), b"corrupt");
}

#[test]
fn external_change_even_valid_json_requires_reload() {
    let mut disk = Disk::new();
    let mut store = store();
    load(&mut store, &disk, parse_todos).unwrap();
    disk.write(PRIMARY, &encode_todos(&todo("external")));
    assert!(save_todos(&mut store, &mut disk, &todo("stale")).is_err());
    assert!(save_todos(&mut store, &mut disk, &todo("retry-stale")).is_err());
    assert_eq!(load(&mut store, &disk, parse_todos).unwrap()[0].text, "external");
    save_todos(&mut store, &mut disk, &todo("after-load")).unwrap();
}

#[test]
fn existing_directory_is_read_error_not_missing() {
    let mut disk = Disk::new();
    disk.dirs.insert(PRIMARY.to_string());
    let mut store = store();
    assert!(load(&mut store, &disk, parse_todos).is_err());
    assert!(save_todos(&mut store, &mut disk, &todo("no")).is_err());
    assert!(disk.dirs.contains(PRIMARY));
    assert!(!disk.files.contains_key(PRIMARY));
}

#[test]
fn backup_rotates_only_valid_snapshots_and_recovery_preserves_raw_corruption() {
    let mut disk = Disk::new();
    let mut store = store();
    load(&mut store, &disk, parse_todos).unwrap();
    save_todos(&mut store, &mut disk, &todo("one")).unwrap();
    save_todos(&mut store, &mut disk, &todo("two")).unwrap();
    assert_eq!(disk.read(&store.backup_path()).unwrap(), encode_todos(&todo("one")));
    disk.write(PRIMARY, b"exact corrupt\0\xff original");
    assert!(load(&mut store, &disk, parse_todos).is_err());
    assert!(save_todos(&mut store, &mut disk, &todo("no")).is_err());
    assert_eq!(recover(&mut store, &mut disk, parse_todos).unwrap()[0].text, "one");
    let preserved = disk.names_containing(".corrupt-");
    assert_eq!(preserved.len(), 1);
    assert_eq!(disk.read(&preserved[0]).unwrap(), b"exact corrupt\0\xff original");
    assert_eq!(disk.read(&store.backup_path()).unwrap(), encode_todos(&todo("one")));
    save_todos(&mut store, &mut disk, &todo("after recovery")).unwrap();
}

#[test]
fn absent_or_corrupt_backup_does_not_change_primary() {
    let mut disk = Disk::new();
    disk.write(PRIMARY, b"original");
    let mut store = store();
    assert!(recover(&mut store, &mut disk, parse_todos).is_err());
    disk.write(&store.backup_path(), b"bad backup");
    assert!(recover(&mut store, &mut disk, parse_todos).is_err());
    assert_eq!(disk.read(PRIMARY).unwrap(), b"original");
    assert!(save_todos(&mut store, &mut disk, &todo("no")).is_err());
}

#[test]
fn recovery_can_restore_missing_primary() {
    let mut disk = Disk::new();
    let mut store = store();
    disk.write(&store.backup_path(), &encode_todos(&todo("backup")));
    assert_eq!(recover(&mut store, &mut disk, parse_todos).unwrap()[0].text, "backup");
    assert_eq!(disk.read(PRIMARY).unwrap(), encode_todos(&todo("backup")));
}

#[test]
fn backup_commit_failure_keeps_primary_and_cleans_temps_then_retry_works() {
    let mut disk = Disk::new();
    disk.write(PRIMARY, &encode_todos(&todo("old")));
    let mut store = store();
    load(&mut store, &disk, parse_todos).unwrap();
    disk.dirs.insert(store.backup_path());
    assert!(save_todos(&mut store, &mut disk, &todo("new")).is_err());
    assert_eq!(disk.read(PRIMARY).unwrap(), encode_todos(&todo("old")));
    assert!(disk.names_containing(".tmp-").is_empty());
    disk.dirs.remove(&store.backup_path());
    save_todos(&mut store, &mut disk, &todo("new")).unwrap();
}

#[test]
fn temp_creation_failure_does_not_create_primary() {
    let mut disk = Disk::new();
    let parent = "/data/nested";
    let mut store = JsonStore::<Vec<Todo>>::new(format!("{}/todos.json", parent));
    load(&mut store, &disk, parse_todos).unwrap();
    disk.write(parent, b"not a directory");
    assert!(save_todos(&mut store, &mut disk, &todo("no")).is_err());
    assert_eq!(disk.read(parent).unwrap(), b"not a directory");
    assert!(!disk.holds("/data/nested/todos.json"));
}

#[test]
fn settings_roundtrip_defaults_and_validation() {
    let mut disk = Disk::new();
    let path = "/data/settings.json";
    let mut store = JsonStore::<Settings>::new(path.to_string());
    let default = load(&mut store, &disk, parse_settings).unwrap();
    assert_eq!(default.side, "right");
    assert!(!default.collapsed);
    assert!(default.ontop);
    assert!(!default.completed_expanded);
    let changed = Settings { side: "left".to_string(), collapsed: true, ontop: false, completed_expanded: true };
    save(&mut store, &mut disk, &changed, encode_settings(&changed), parse_settings).unwrap();
    assert_eq!(load(&mut store, &disk, parse_settings).unwrap(), changed);
    let bad = Settings { side: "top".to_string(), ..changed.clone() };
    assert!(save(&mut store, &mut disk, &bad, encode_settings(&bad), parse_settings).is_err());
    assert_eq!(load(&mut store, &disk, parse_settings).unwrap(), changed);
    disk.write(path, br#"{"side":"up","collapsed":false,"ontop":true,"completed_expanded":false}"#);
    assert!(load(&mut store, &disk, parse_settings).is_err());
    let defaults = Settings::default();
    assert!(save(&mut store, &mut disk, &defaults, encode_settings(&defaults), parse_settings).is_err());
}

#[test]
fn serialized_read_modify_write_keeps_all_updates() {
    let mut disk = Disk::new();
    let mut store = store();
    load(&mut store, &disk, parse_todos).unwrap();
    for n in 0..12 {
        let mut todos = load(&mut store, &disk, parse_todos).unwrap();
        todos.extend(todo(&n.to_string()));
        save_todos(&mut store, &mut disk, &todos).unwrap();
    }
    assert_eq!(load(&mut store, &disk, parse_todos).unwrap().len(), 12);
    assert_eq!(parse_todos(&disk.read(&store.backup_path()).unwrap()).unwrap().len(), 11);
}

#[test]
fn sharing_denied_is_not_empty_and_recovery_cannot_overwrite_it() {
    let mut disk = Disk::new();
    disk.write(PRIMARY, b"unreadable original");
    let mut store = store();
    disk.write(&store.backup_path(), &encode_todos(&todo("backup")));
    disk.unreadable.insert(PRIMARY.to_string());
    assert!(load(&mut store, &disk, parse_todos).is_err());
    assert!(save_todos(&mut store, &mut disk, &todo("no")).is_err());
    assert!(recover(&mut store, &mut disk, parse_todos).is_err());
    disk.unreadable.clear();
    assert_eq!(disk.read(PRIMARY).unwrap(), b"unreadable original");
}

#[test]
fn primary_replace_failure_keeps_old_and_backup_and_allows_retry() {
    let mut disk = Disk::new();
    let mut store = store();
    load(&mut store, &disk, parse_todos).unwrap();
    save_todos(&mut store, &mut disk, &todo("old")).unwrap();
    disk.pinned.insert(PRIMARY.to_string());
    assert!(save_todos(&mut store, &mut disk, &todo("new")).is_err());
    assert_eq!(disk.read(PRIMARY).unwrap(), encode_todos(&todo("old")));
    assert_eq!(disk.read(&store.backup_path()).unwrap(), encode_todos(&todo("old")));
    disk.pinned.clear();
    save_todos(&mut store, &mut disk, &todo("new")).unwrap();
}

#[test]
fn idempotent_save_keeps_an_older_backup() {
    let mut disk = Disk::new();
    let mut store = store();
    load(&mut store, &disk, parse_todos).unwrap();
    save_todos(&mut store, &mut disk, &todo("one")).unwrap();
    save_todos(&mut store, &mut disk, &todo("two")).unwrap();
    save_todos(&mut store, &mut disk, &todo("two")).unwrap();
    assert_eq!(disk.read(PRIMARY).unwrap(), encode_todos(&todo("two")));
    assert_eq!(disk.read(&store.backup_path()).unwrap(), encode_todos(&todo("one")));
}

#[test]
fn idempotent_save_seeds_a_missing_backup() {
    let mut disk = Disk::new();
    disk.write(PRIMARY, &encode_todos(&todo("kept")));
    let mut store = store();
    let todos = load(&mut store, &disk, parse_todos).unwrap();
    save_todos(&mut store, &mut disk, &todos).unwrap();
    assert_eq!(disk.read(&store.backup_path()).unwrap(), encode_todos(&todo("kept")));
    assert!(disk.names_containing(".tmp-").is_empty());
}

#[test]
fn first_save_keeps_an_existing_valid_backup() {
    let mut disk = Disk::new();
    let mut store = store();
    disk.write(&store.backup_path(), &encode_todos(&todo("older")));
    load(&mut store, &disk, parse_todos).unwrap();
    save_todos(&mut store, &mut disk, &todo("fresh")).unwrap();
    assert_eq!(disk.read(PRIMARY).unwrap(), encode_todos(&todo("fresh")));
    assert_eq!(disk.read(&store.backup_path()).unwrap(), encode_todos(&todo("older")));
}

#[test]
fn first_save_refuses_a_corrupt_backup_and_leaves_no_primary() {
    let mut disk = Disk::new();
    let mut store = store();
    disk.write(&store.backup_path(), b"garbage");
    load(&mut store, &disk, parse_todos).unwrap();
    let err = save_todos(&mut store, &mut disk, &todo("fresh")).unwrap_err();
    assert!(err.contains("JSON 无效"));
    assert!(!disk.holds(PRIMARY));
    assert!(disk.names_containing(".tmp-").is_empty());
}

#[test]
fn unreadable_existing_file_reports_and_blocks() {
    let mut store = store();
    let fetched: Fetch<Vec<Todo>> = Fetch::NotFound("dangling".to_string(), Probe::Present);
    let err = store.load(fetched).unwrap_err();
    assert_eq!(err, "文件存在但无法读取 [/data/todos.json]: dangling");
    let probe_failed: Fetch<Vec<Todo>> = Fetch::NotFound("gone".to_string(), Probe::Failed("denied".to_string()));
    assert_eq!(store.load(probe_failed).unwrap_err(), "无法检查文件 [/data/todos.json]: denied");
    let failed: Fetch<Vec<Todo>> = Fetch::Failed("io".to_string());
    assert_eq!(store.load(failed).unwrap_err(), "无法读取文件（不是空数据） [/data/todos.json]: io");
}

#[test]
fn error_texts_of_blocked_and_changed_saves() {
    let mut disk = Disk::new();
    let mut store = store();
    let blocked = save_todos(&mut store, &mut disk, &todo("x")).unwrap_err();
    assert_eq!(blocked, "保存被阻止 [/data/todos.json]: 必须先成功读取数据或显式恢复备份");
    load(&mut store, &disk, parse_todos).unwrap();
    disk.write(PRIMARY, b"[]");
    let changed = save_todos(&mut store, &mut disk, &todo("x")).unwrap_err();
    assert_eq!(changed, "保存被阻止 [/data/todos.json]: 文件已被外部修改；请重新读取或恢复备份，避免丢失数据");
    let invalid_settings = Settings { side: "up".to_string(), collapsed: false, ontop: true, completed_expanded: false };
    let mut settings = JsonStore::<Settings>::new("/data/settings.json".to_string());
    load(&mut settings, &disk, parse_settings).unwrap();
    let refused = save(&mut settings, &mut disk, &invalid_settings, encode_settings(&invalid_settings), parse_settings);
    assert_eq!(refused.unwrap_err(), "无效停靠方向：side 必须是 left 或 right");
}

#[test]
fn check_writable_matches_snapshot_and_revokes_on_change() {
    let mut disk = Disk::new();
    let mut store = store();
    assert!(store.check_writable(disk.fetch(PRIMARY, parse_todos)).is_err());
    load(&mut store, &disk, parse_todos).unwrap();
    assert!(store.check_writable(disk.fetch(PRIMARY, parse_todos)).is_ok());
    disk.write(PRIMARY, b"[]");
    assert!(store.check_writable(disk.fetch(PRIMARY, parse_todos)).is_err());
    disk.files.remove(PRIMARY);
    // Even the original absence no longer permits a write once revoked.
    assert!(store.check_writable(disk.fetch(PRIMARY, parse_todos)).is_err());
}

#[test]
fn sibling_names_follow_the_file() {
    let store = store();
    assert_eq!(store.backup_path(), "/data/todos.json.bak");
    let path = store.preserve_unsaved(&todo("x"), "7-9-1").unwrap();
    assert_eq!(path, "/data/todos.json.unsaved-7-9-1");
    assert_eq!(sideline::disk::unique_sibling("/a/b.json", "corrupt", "t"), "/a/b.json.corrupt-t");
    assert_eq!(sideline::disk::error("act", "/p", "why"), "act [/p]: why");
}

#[test]
fn recovery_requests_follow_the_protocol_order() {
    let mut disk = Disk::new();
    disk.write(PRIMARY, b"broken");
    let mut store = store();
    disk.write(&store.backup_path(), &encode_todos(&todo("b")));
    let mut progress = store.recover("t");
    let mut seen = Vec::new();
    loop {
        match progress {
            Progress::Pending(run, request) => {
                seen.push(match &request {
                    Request::Read(p) => format!("read {}", p),
                    Request::CreateNew(p, _) => format!("create {}", p),
                    Request::Replace(a, b) => format!("replace {} {}", a, b),
                    Request::Discard(p) => format!("discard {}", p),
                    Request::CreateParentDir(p) => format!("mkdir {}", p),
                });
                let reply = disk.perform(request, parse_todos);
                progress = store.recover_step(run, reply);
            }
            Progress::Finished(result) => {
                assert!(result.is_ok());
                break;
            }
        }
    }
    assert_eq!(
        seen,
        vec![
            "read /data/todos.json.bak",
            "read /data/todos.json",
            "create /data/todos.json.tmp-t",
            "create /data/todos.json.corrupt-t",
            "replace /data/todos.json.tmp-t /data/todos.json",
            "discard /data/todos.json.tmp-t",
        ]
    );
}

#[test]
fn error_texts_of_invalid_data_and_missing_backup() {
    let mut disk = Disk::new();
    disk.write("/data/settings.json", br#"{"side":"up","collapsed":false,"ontop":true,"completed_expanded":false}"#);
    let mut settings = JsonStore::<Settings>::new("/data/settings.json".to_string());
    assert_eq!(
        load(&mut settings, &disk, parse_settings).unwrap_err(),
        "数据无效；已禁止覆盖 [/data/settings.json]: 无效停靠方向：side 必须是 left 或 right"
    );
    disk.write(PRIMARY, b"{broken");
    let mut store = store();
    let err = load(&mut store, &disk, parse_todos).unwrap_err();
    assert!(err.starts_with("JSON 无效；已禁止覆盖，请恢复备份或修复原文件 [/data/todos.json]: "));
    assert_eq!(
        recover(&mut store, &mut disk, parse_todos).unwrap_err(),
        "无法恢复 [/data/todos.json.bak]: 不存在备份"
    );
    assert_eq!(disk.read(PRIMARY).unwrap(), b"{broken");
}

#[test]
fn recovery_keeps_the_backup_and_allows_saving_again() {
    let mut disk = Disk::new();
    let mut store = store();
    disk.write(&store.backup_path(), &encode_todos(&todo("safe")));
    disk.write(PRIMARY, b"bad");
    let recovered = recover(&mut store, &mut disk, parse_todos).unwrap();
    assert_eq!(recovered, todo("safe"));
    assert_eq!(disk.read(PRIMARY).unwrap(), encode_todos(&todo("safe")));
    assert_eq!(disk.read(&store.backup_path()).unwrap(), encode_todos(&todo("safe")));
    assert!(store.check_writable(disk.fetch(PRIMARY, parse_todos)).is_ok());
    assert!(disk.names_containing(".tmp-").is_empty());
}

#[test]
fn failed_preservation_aborts_recovery_and_keeps_the_primary() {
    let mut disk = Disk::new();
    let mut store = store();
    disk.write(&store.backup_path(), &encode_todos(&todo("safe")));
    disk.write(PRIMARY, b"bad");
    disk.dirs.insert("/data/todos.json.corrupt-1700000000-42-1".to_string());
    assert!(recover(&mut store, &mut disk, parse_todos).is_err());
    assert_eq!(disk.read(PRIMARY).unwrap(), b"bad");
    assert!(disk.names_containing(".tmp-").is_empty());
    assert!(store.check_writable(disk.fetch(PRIMARY, parse_todos)).is_err());
}
