use std::collections::HashMap;

use kaggle_tpu_companion::pi::{assess, PiState};
use kaggle_tpu_companion::pi_sync::{start_sync, step, PiFile, SyncAction, SyncEvent, SyncRequest, SyncState};

/// An in-memory stand-in for the two files and their backups.
struct Disk {
    files: HashMap<&'static str, String>,
    fail_on: Option<&'static str>,
    log: Vec<String>,
}

fn file_name(f: PiFile) -> &'static str {
    match f {
        PiFile::Models => "models.json",
        PiFile::Auth => "auth.json",
    }
}

fn backup_name(f: PiFile) -> &'static str {
    match f {
        PiFile::Models => "models.json.ktl-sync.tmp",
        PiFile::Auth => "auth.json.ktl-sync.tmp",
    }
}

const MODELS: &str = r#"{"providers":{"other-provider":{"name":"Keep me","baseUrl":"https://keep.example/v1"},"kaggle-tpu":{"name":"Old","baseUrl":"https://old.example/v1"}}}"#;
const AUTH: &str = r#"{"other-auth":{"type":"api_key","key":"other-key"},"kaggle-tpu":{"type":"api_key","key":"old-key"}}"#;

impl Disk {
    fn new(models: &str, auth: &str) -> Disk {
        let mut files = HashMap::new();
        files.insert("models.json", models.to_string());
        files.insert("auth.json", auth.to_string());
        Disk { files, fail_on: None, log: vec![] }
    }

    fn fails(&self, what: &str) -> bool {
        self.fail_on == Some(what)
    }

    /// Runs a sync to its end; the outcome the caller reports.
    fn run(&mut self, req: &SyncRequest) -> Result<(), String> {
        let (mut state, mut action) = start_sync();
        loop {
            let event = match action {
                SyncAction::Read(f) => {
                    let what = format!("read {}", file_name(f));
                    self.log.push(what.clone());
                    if self.fails(&what) {
                        SyncEvent::Text(Err("denied".into()))
                    } else {
                        SyncEvent::Text(Ok(self.files[file_name(f)].clone()))
                    }
                }
                SyncAction::Backup(f) => {
                    let what = format!("backup {}", file_name(f));
                    self.log.push(what.clone());
                    if self.fails(&what) {
                        self.files.insert(backup_name(f), "partial".to_string());
                        SyncEvent::Done(Err("disk full".into()))
                    } else {
                        let t = self.files[file_name(f)].clone();
                        self.files.insert(backup_name(f), t);
                        SyncEvent::Done(Ok(()))
                    }
                }
                SyncAction::Write(f, t) => {
                    let what = format!("write {}", file_name(f));
                    self.log.push(what.clone());
                    if self.fails(&what) {
                        SyncEvent::Done(Err("read-only".into()))
                    } else {
                        self.files.insert(file_name(f), t);
                        SyncEvent::Done(Ok(()))
                    }
                }
                SyncAction::Commit => {
                    self.files.remove(backup_name(PiFile::Models));
                    self.files.remove(backup_name(PiFile::Auth));
                    return Ok(());
                }
                SyncAction::Rollback(m) => {
                    for f in [PiFile::Models, PiFile::Auth] {
                        if let Some(b) = self.files.get(backup_name(f)).cloned() {
                            self.files.insert(file_name(f), b);
                        }
                        self.files.remove(backup_name(f));
                    }
                    return Err(m);
                }
                SyncAction::Discard(m) => {
                    self.files.remove(backup_name(PiFile::Models));
                    self.files.remove(backup_name(PiFile::Auth));
                    return Err(m);
                }
                SyncAction::Abort(m) => return Err(m),
            };
            assert!(state.accepts(&event));
            let (s2, a2) = step(req, state, event);
            state = s2;
            action = a2;
            assert!(
                !matches!(state, SyncState::Finished)
                    || matches!(
                        action,
                        SyncAction::Commit | SyncAction::Rollback(_) | SyncAction::Discard(_) | SyncAction::Abort(_)
                    )
            );
        }
    }
}

fn request() -> SyncRequest {
    SyncRequest { endpoint: "https://new.example/v1".into(), context_window: 262144, api_key: "sk-newkey".into() }
}

#[test]
fn sync_machine_writes_both_files_after_both_backups_and_commits() {
    let mut disk = Disk::new(MODELS, AUTH);
    assert_eq!(disk.run(&request()), Ok(()));
    assert_eq!(
        disk.log,
        vec![
            "read models.json", "read auth.json", "backup models.json", "backup auth.json",
            "write models.json", "write auth.json", "read models.json", "read auth.json",
        ]
    );
    assert!(!disk.files.contains_key("models.json.ktl-sync.tmp"));
    assert!(!disk.files.contains_key("auth.json.ktl-sync.tmp"));
    let m: serde_json::Value = serde_json::from_str(&disk.files["models.json"]).unwrap();
    let a: serde_json::Value = serde_json::from_str(&disk.files["auth.json"]).unwrap();
    assert_eq!(m["providers"]["other-provider"]["baseUrl"], "https://keep.example/v1");
    assert_eq!(a["other-auth"]["key"], "other-key");
    assert_eq!(m["providers"]["kaggle-tpu"]["baseUrl"], "https://new.example/v1");
    assert_eq!(m["providers"]["kaggle-tpu"]["models"][0]["id"], "qwen3.8-27b");
    assert_eq!(m["providers"]["kaggle-tpu"]["models"][0]["contextWindow"], 262144);
    assert_eq!(a["kaggle-tpu"]["key"], "sk-newkey");
    assert!(disk.files["models.json"].contains("\n  \"providers\""));
}

#[test]
fn sync_machine_leaves_files_that_assess_synced_and_a_second_sync_changes_nothing() {
    let mut disk = Disk::new(MODELS, AUTH);
    assert_eq!(disk.run(&request()), Ok(()));
    assert_eq!(assess(&disk.files["models.json"], &disk.files["auth.json"], Some("https://new.example/v1")), PiState::Synced);
    let after_first = disk.files.clone();
    assert_eq!(disk.run(&request()), Ok(()));
    assert_eq!(disk.files, after_first);
}

#[test]
fn sync_machine_rolls_back_both_files_when_a_write_fails() {
    let mut disk = Disk::new(MODELS, AUTH);
    let before = disk.files.clone();
    disk.fail_on = Some("write auth.json");
    assert_eq!(disk.run(&request()), Err("write auth.json failed: read-only".to_string()));
    assert_eq!(disk.files, before);
}

#[test]
fn sync_machine_discards_backups_when_the_auth_root_is_not_an_object() {
    let mut disk = Disk::new(MODELS, "[1,2,3]");
    let before = disk.files.clone();
    assert_eq!(disk.run(&request()), Err("auth.json root is not an object".to_string()));
    assert_eq!(disk.files, before);
    assert!(!disk.log.iter().any(|l| l.starts_with("write")));
}

#[test]
fn sync_machine_discards_the_first_backup_when_the_second_fails() {
    let mut disk = Disk::new(MODELS, AUTH);
    let before = disk.files.clone();
    disk.fail_on = Some("backup auth.json");
    assert_eq!(disk.run(&request()), Err("backup auth.json failed: disk full".to_string()));
    assert_eq!(disk.files, before);
}

#[test]
fn sync_machine_aborts_before_any_backup_on_unreadable_or_invalid_input() {
    let mut disk = Disk::new(MODELS, AUTH);
    disk.fail_on = Some("read auth.json");
    assert_eq!(disk.run(&request()), Err("cannot read auth.json: denied".to_string()));
    assert_eq!(disk.log, vec!["read models.json", "read auth.json"]);

    let models = r#"{"providers":{"x":{"a":1}}}"#;
    let mut disk = Disk::new(models, "{broken");
    let before = disk.files.clone();
    let e = disk.run(&request()).unwrap_err();
    assert!(e.starts_with("auth.json is not valid JSON: "), "{e}");
    assert_eq!(disk.files, before);
    assert_eq!(disk.log, vec!["read models.json", "read auth.json"]);
}

#[test]
fn sync_machine_rolls_back_when_the_written_files_do_not_check() {
    let mut disk = Disk::new(MODELS, AUTH);
    let before = disk.files.clone();
    let req = SyncRequest { endpoint: "https://new.example/v1".into(), context_window: 262144, api_key: String::new() };
    assert_eq!(disk.run(&req), Err("auth entry invalid after write".to_string()));
    assert_eq!(disk.files, before);
}

#[test]
fn sync_machine_writes_documents_whose_other_numbers_are_floats_and_large_integers() {
    let models = r#"{"providers":{"other":{"temp":0.7,"big":18446744073709551615,"neg":-12,"tiny":1e-7}},"version":2}"#;
    let mut disk = Disk::new(models, AUTH);
    assert_eq!(disk.run(&request()), Ok(()));
    let m: serde_json::Value = serde_json::from_str(&disk.files["models.json"]).unwrap();
    assert_eq!(m["providers"]["other"]["temp"], 0.7);
    assert_eq!(m["providers"]["other"]["big"], 18446744073709551615u64);
    assert_eq!(m["providers"]["other"]["neg"], -12);
    assert_eq!(m["providers"]["other"]["tiny"], 1e-7);
    assert_eq!(m["version"], 2);
    assert_eq!(m["providers"]["kaggle-tpu"]["models"][0]["maxTokens"], 65536);
}

#[test]
fn sync_machine_reports_serde_json_description_of_an_invalid_file() {
    let mut disk = Disk::new("{\"providers\": [1,", AUTH);
    let expected = serde_json::from_str::<serde_json::Value>("{\"providers\": [1,").unwrap_err().to_string();
    assert_eq!(disk.run(&request()), Err(format!("models.json is not valid JSON: {expected}")));
    assert_eq!(disk.log, vec!["read models.json", "read auth.json"]);
}
