use std::collections::HashMap;

use nonbin::clock::Timestamp;
use nonbin::error::AppError;
use nonbin::models::{NewPaste, Paste, DELETE_KEY_LEN};
use nonbin::paste::{
    after_insert, after_undo, after_write, authorize_delete, check_fetch, finish_delete,
    is_expired, is_expired_inner, plan_purge, tally_purge, CreateStep,
};
use nonbin::words::WordLists;

fn ts(secs: i64) -> Timestamp {
    Timestamp::new(secs, 0).expect("valid timestamp")
}

fn paste(key: &str, delete_key: Option<&str>, created: i64) -> Paste {
    Paste {
        key: key.to_string(),
        delete_key: delete_key.map(|k| k.to_string()),
        file_name: "f.txt".to_string(),
        timestamp: ts(created),
    }
}

/// Both stores, kept in memory, driven by the steps that the library asks for.
struct Stores {
    records: HashMap<String, Paste>,
    objects: HashMap<String, Vec<u8>>,
    fail_writes: bool,
}

impl Stores {
    fn new() -> Self {
        Stores { records: HashMap::new(), objects: HashMap::new(), fail_writes: false }
    }

    fn create(&mut self, request: NewPaste, content: &[u8], at: Timestamp) -> Result<Paste, AppError> {
        let record = Paste {
            key: request.key.clone(),
            delete_key: Some(request.delete_key.clone()),
            file_name: request.file_name.clone(),
            timestamp: at,
        };
        self.records.insert(request.key.clone(), record.clone());
        let mut step = after_insert(Ok(record));
        loop {
            step = match step {
                CreateStep::Write { record } => {
                    let written = if self.fail_writes {
                        Err(AppError::InsufficientStorage)
                    } else {
                        self.objects.insert(record.key.clone(), content.to_vec());
                        Ok(content.len() as u64)
                    };
                    after_write(record, written)
                }
                CreateStep::Undo { key, failure } => {
                    self.records.remove(&key);
                    after_undo(failure, Ok(()))
                }
                CreateStep::Done(result) => return result,
            }
        }
    }

    fn fetch(&self, key: &str, now: Timestamp, expiration: Option<u64>) -> Result<Vec<u8>, AppError> {
        check_fetch(self.records.get(key), now, expiration)?;
        self.objects.get(key).cloned().ok_or(AppError::NotFound)
    }

    fn delete(&mut self, key: &str, supplied: Option<&str>) -> Result<(), AppError> {
        let supplied = supplied.map(|s| s.to_string());
        authorize_delete(supplied.as_ref(), self.records.get(key))?;
        let record_removed = self.records.remove(key).map(|_| ()).ok_or(AppError::NotFound);
        let object_removed = self.objects.remove(key).map(|_| ()).ok_or(AppError::NotFound);
        finish_delete(record_removed, object_removed)
    }
}

fn words() -> WordLists {
    WordLists::from_text("happy\nsunny\nquiet\n", "otter\nriver\n").unwrap()
}

#[test]
fn notes_scenario() {
    let mut stores = Stores::new();
    let request = NewPaste::generate(&words(), "notes.txt");
    let created = stores.create(request, b"hello", ts(1000)).unwrap();

    let parts: Vec<&str> = created.key.split('-').collect();
    assert_eq!(parts.len(), 3);
    assert!(parts.iter().all(|p| !p.is_empty()));
    let credential = created.delete_key.clone().unwrap();
    assert!(!credential.is_empty());
    assert_eq!(created.file_name, "notes.txt");

    assert_eq!(stores.fetch(&created.key, ts(1001), None).unwrap(), b"hello".to_vec());
    assert!(matches!(stores.delete(&created.key, Some("bad")), Err(AppError::WrongDeleteKey)));
    assert!(stores.delete(&created.key, Some(&credential)).is_ok());
    assert!(matches!(stores.fetch(&created.key, ts(1002), None), Err(AppError::NotFound)));
}

#[test]
fn round_trip_of_arbitrary_bytes() {
    let mut stores = Stores::new();
    let content: Vec<u8> = (0..=255u8).chain([0, 0, 255]).collect();
    let created = stores.create(NewPaste::generate(&words(), "bin.dat"), &content, ts(50)).unwrap();
    assert_eq!(stores.fetch(&created.key, ts(60), Some(100)).unwrap(), content);
}

#[test]
fn round_trip_of_empty_content() {
    let mut stores = Stores::new();
    let created = stores.create(NewPaste::generate(&words(), ""), b"", ts(50)).unwrap();
    assert_eq!(stores.fetch(&created.key, ts(50), None).unwrap(), Vec::<u8>::new());
}

#[test]
fn failed_write_removes_the_record() {
    let mut stores = Stores::new();
    stores.fail_writes = true;
    let request = NewPaste::generate(&words(), "a.txt");
    let key = request.key.clone();
    let result = stores.create(request, b"data", ts(5));
    assert!(matches!(result, Err(AppError::InsufficientStorage)));
    assert!(!stores.records.contains_key(&key));
    assert!(!stores.objects.contains_key(&key));
}

#[test]
fn delete_succeeds_once() {
    let mut stores = Stores::new();
    let created = stores.create(NewPaste::generate(&words(), "x"), b"x", ts(1)).unwrap();
    let credential = created.delete_key.clone().unwrap();
    assert!(stores.delete(&created.key, Some(&credential)).is_ok());
    assert!(matches!(stores.delete(&created.key, Some(&credential)), Err(AppError::NotFound)));
    assert!(matches!(stores.delete(&created.key, Some("bad")), Err(AppError::NotFound)));
}

#[test]
fn new_paste_request_shape() {
    let first = NewPaste::generate(&words(), "report.pdf");
    let second = NewPaste::generate(&words(), "report.pdf");
    assert_eq!(first.delete_key.len(), DELETE_KEY_LEN);
    assert_eq!(first.file_name, "report.pdf");
    assert_ne!(first.delete_key, second.delete_key);
}

#[test]
fn delete_without_credential_supplied() {
    let p = paste("a-b-c", Some("secret"), 0);
    assert!(matches!(authorize_delete(None, Some(&p)), Err(AppError::MissingDeleteKey)));
}

#[test]
fn delete_of_paste_without_credential_is_always_refused() {
    let p = paste("a-b-c", None, 0);
    for supplied in ["", "secret", "anything"] {
        let s = supplied.to_string();
        assert!(matches!(authorize_delete(Some(&s), Some(&p)), Err(AppError::WrongDeleteKey)));
    }
    assert!(matches!(authorize_delete(None, Some(&p)), Err(AppError::WrongDeleteKey)));
}

#[test]
fn delete_of_unknown_key() {
    let s = "secret".to_string();
    assert!(matches!(authorize_delete(Some(&s), None), Err(AppError::NotFound)));
    assert!(matches!(authorize_delete(None, None), Err(AppError::NotFound)));
}

#[test]
fn delete_credentials_compare_exactly() {
    let p = paste("a-b-c", Some("Secret"), 0);
    let lower = "secret".to_string();
    let padded = "Secret ".to_string();
    let exact = "Secret".to_string();
    assert!(matches!(authorize_delete(Some(&lower), Some(&p)), Err(AppError::WrongDeleteKey)));
    assert!(matches!(authorize_delete(Some(&padded), Some(&p)), Err(AppError::WrongDeleteKey)));
    assert!(authorize_delete(Some(&exact), Some(&p)).is_ok());
}

#[test]
fn finish_delete_outcomes() {
    assert!(finish_delete(Ok(()), Ok(())).is_ok());
    assert!(finish_delete(Ok(()), Err(AppError::NotFound)).is_ok());
    let db = AppError::Database { detail: "down".to_string() };
    assert!(matches!(finish_delete(Err(db), Ok(())), Err(AppError::Database { .. })));
    let io = AppError::IO { detail: "denied".to_string() };
    assert!(matches!(finish_delete(Ok(()), Err(io)), Err(AppError::IO { .. })));
    let db = AppError::Database { detail: "down".to_string() };
    let io = AppError::IO { detail: "denied".to_string() };
    assert!(matches!(finish_delete(Err(db), Err(io)), Err(AppError::Database { .. })));
}

#[test]
fn create_steps() {
    let p = paste("k-k-k", Some("d"), 3);
    assert!(matches!(after_insert(Ok(p.clone())), CreateStep::Write { record } if record.key == "k-k-k"));
    let db = AppError::Database { detail: "dup".to_string() };
    assert!(matches!(after_insert(Err(db)), CreateStep::Done(Err(AppError::Database { .. }))));
    assert!(matches!(after_write(p.clone(), Ok(4)), CreateStep::Done(Ok(r)) if r.key == "k-k-k"));
    match after_write(p, Err(AppError::InsufficientStorage)) {
        CreateStep::Undo { key, failure } => {
            assert_eq!(key, "k-k-k");
            assert!(matches!(failure, AppError::InsufficientStorage));
        }
        other => panic!("unexpected {:?}", other),
    }
    let failed = after_undo(AppError::InsufficientStorage, Err(AppError::NotFound));
    assert!(matches!(failed, CreateStep::Done(Err(AppError::InsufficientStorage))));
}

#[test]
fn expiration_checks() {
    let p = paste("k", None, 100);
    assert_eq!(is_expired(&p, ts(10_000), None).unwrap(), false);
    assert_eq!(is_expired(&p, ts(160), Some(60)).unwrap(), false);
    assert_eq!(is_expired(&p, ts(161), Some(60)).unwrap(), true);
    assert_eq!(is_expired_inner(&p, ts(161), 60).unwrap(), true);
    assert!(matches!(is_expired(&p, ts(50), Some(60)), Err(AppError::ClockSkew)));
    assert_eq!(is_expired(&p, ts(50), None).unwrap(), false);
}

#[test]
fn expired_paste_is_unfetchable_before_any_sweep() {
    let mut stores = Stores::new();
    let created = stores.create(NewPaste::generate(&words(), "old.txt"), b"old", ts(0)).unwrap();
    assert!(stores.fetch(&created.key, ts(30), Some(30)).is_ok());
    assert!(matches!(stores.fetch(&created.key, ts(31), Some(30)), Err(AppError::NotFound)));
    // the sweep at the same instant removes exactly this paste
    let all: Vec<Paste> = stores.records.values().cloned().collect();
    let plan = plan_purge(&all, ts(31), 30);
    assert_eq!(plan.expired, vec![created.key.clone()]);
}

#[test]
fn fetch_of_future_paste_is_a_clock_fault() {
    let p = paste("k", None, 500);
    assert!(matches!(check_fetch(Some(&p), ts(100), Some(10)), Err(AppError::ClockSkew)));
    assert!(check_fetch(Some(&p), ts(100), None).is_ok());
    assert!(matches!(check_fetch(None, ts(100), None), Err(AppError::NotFound)));
}

#[test]
fn sweep_plan_and_second_pass() {
    let records = vec![
        paste("old-one", None, 0),
        paste("fresh", None, 95),
        paste("future", None, 500),
        paste("old-two", Some("d"), 10),
    ];
    let plan = plan_purge(&records, ts(100), 50);
    assert_eq!(plan.expired, vec!["old-one".to_string(), "old-two".to_string()]);
    assert_eq!(plan.skewed, vec!["future".to_string()]);

    let outcomes = vec![Ok(()), Err(AppError::IO { detail: "busy".to_string() })];
    let report = tally_purge(records.len(), &plan, &outcomes);
    assert_eq!(report.examined, 4);
    assert_eq!(report.removed, 1);
    assert_eq!(report.failed, 1);
    assert_eq!(report.skewed, 1);

    let kept: Vec<Paste> = records
        .iter()
        .filter(|p| !plan.expired.contains(&p.key))
        .cloned()
        .collect();
    let second = plan_purge(&kept, ts(100), 50);
    assert!(second.expired.is_empty());
    let second_report = tally_purge(kept.len(), &second, &Vec::new());
    assert_eq!(second_report.removed, 0);
}

#[test]
fn sweep_of_nothing() {
    let plan = plan_purge(&Vec::new(), ts(100), 0);
    assert!(plan.expired.is_empty());
    assert!(plan.skewed.is_empty());
}

#[test]
fn sweep_with_zero_threshold_takes_any_paste_a_second_old() {
    let records = vec![paste("a", None, 99), paste("b", None, 100)];
    let plan = plan_purge(&records, Timestamp::new(100, 999_999_999).unwrap(), 0);
    assert_eq!(plan.expired, vec!["a".to_string()]);
}
