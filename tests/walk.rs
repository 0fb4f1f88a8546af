use std::collections::HashSet;

use structure_manager::{
    DirKind, Reply, Request, StructureConfig, StructureError, StructureItem, StructureItemOptions,
    VerificationError, Walker,
};

fn path(parts: &[&str]) -> Vec<String> {
    parts.iter().map(|p| p.to_string()).collect()
}

fn item(repair: Option<bool>, files: &[&str], dirs: Vec<(&str, StructureItem)>) -> StructureItem {
    StructureItem {
        options: repair.map(|r| StructureItemOptions { repair: Some(r), strict: None }),
        files: if files.is_empty() { None } else { Some(path(files)) },
        dirs: if dirs.is_empty() {
            None
        } else {
            Some(dirs.into_iter().map(|(n, i)| (n.to_string(), i)).collect())
        },
    }
}

/// An in-memory filesystem: the relative paths that exist below the root.
struct Disk {
    entries: HashSet<Vec<String>>,
    fail_creation: Option<String>,
    asked: Vec<Vec<String>>,
    created: Vec<Vec<String>>,
}

impl Disk {
    fn new(entries: &[&[&str]]) -> Disk {
        let mut disk = Disk {
            entries: HashSet::new(),
            fail_creation: None,
            asked: Vec::new(),
            created: Vec::new(),
        };
        for e in entries {
            disk.add(&path(e));
        }
        disk
    }

    fn add(&mut self, p: &[String]) {
        for k in 1..=p.len() {
            self.entries.insert(p[..k].to_vec());
        }
    }

    fn verify(&mut self, item: &StructureItem) -> Result<(), VerificationError> {
        let mut w = Walker::new(item);
        loop {
            match w.request() {
                Request::Exists(p) => {
                    self.asked.push(p.clone());
                    w.resume(Reply::Exists(self.entries.contains(&p)));
                }
                Request::CreateDir(p) => {
                    let outcome = match &self.fail_creation {
                        Some(reason) => Err(reason.clone()),
                        None => {
                            self.add(&p);
                            self.created.push(p.clone());
                            Ok(())
                        }
                    };
                    w.resume(Reply::Created(outcome));
                }
                Request::Done(r) => return r,
            }
        }
    }
}

#[test]
fn bare_item_passes_without_asking() {
    let bare = item(None, &[], vec![]);
    let w = Walker::new(&bare);
    assert!(w.is_done());
    assert_eq!(w.request(), Request::Done(Ok(())));
    let empty_lists = StructureItem { options: None, files: Some(vec![]), dirs: Some(vec![]) };
    let mut disk = Disk::new(&[]);
    assert_eq!(disk.verify(&empty_lists), Ok(()));
    assert!(disk.asked.is_empty());
    let repaired = item(Some(true), &[], vec![]);
    assert_eq!(disk.verify(&repaired), Ok(()));
    assert!(disk.created.is_empty());
}

#[test]
fn second_repair_run_changes_nothing() {
    let schema = item(
        Some(true),
        &[],
        vec![
            ("logs", item(Some(true), &[], vec![("old", item(None, &[], vec![]))])),
            ("cache", item(None, &[], vec![])),
        ],
    );
    let mut disk = Disk::new(&[]);
    assert_eq!(disk.verify(&schema), Ok(()));
    assert_eq!(
        disk.created,
        vec![path(&["logs"]), path(&["logs", "old"]), path(&["cache"])]
    );
    let after_first = disk.entries.clone();
    disk.created.clear();
    assert_eq!(disk.verify(&schema), Ok(()));
    assert!(disk.created.is_empty());
    assert_eq!(disk.entries, after_first);
}

#[test]
fn second_run_repeats_a_failure() {
    let schema = item(
        Some(true),
        &[],
        vec![("sub", item(Some(true), &["b.txt"], vec![]))],
    );
    let mut disk = Disk::new(&[]);
    let first = disk.verify(&schema);
    let after_first = disk.entries.clone();
    disk.created.clear();
    assert_eq!(disk.verify(&schema), first);
    assert!(disk.created.is_empty());
    assert_eq!(disk.entries, after_first);
}

#[test]
fn missing_file_reported_with_or_without_repair() {
    for repair in [None, Some(false), Some(true)] {
        let schema = item(repair, &["a.txt"], vec![]);
        let mut disk = Disk::new(&[&["other.txt"]]);
        assert_eq!(
            disk.verify(&schema),
            Err(VerificationError::MissingFile(path(&["a.txt"])))
        );
        assert!(disk.created.is_empty());
    }
}

#[test]
fn missing_dir_without_repair_stops_before_its_files() {
    let schema = item(Some(false), &[], vec![("sub", item(None, &["b.txt"], vec![]))]);
    let mut disk = Disk::new(&[]);
    assert_eq!(
        disk.verify(&schema),
        Err(VerificationError::MissingDirectory(path(&["sub"])))
    );
    assert_eq!(disk.asked, vec![path(&["sub"])]);
    assert!(disk.created.is_empty());
}

#[test]
fn repair_creates_dir_then_reports_its_missing_file() {
    let schema = item(Some(true), &[], vec![("sub", item(None, &["b.txt"], vec![]))]);
    let mut disk = Disk::new(&[]);
    assert_eq!(
        disk.verify(&schema),
        Err(VerificationError::MissingFile(path(&["sub", "b.txt"])))
    );
    assert_eq!(disk.created, vec![path(&["sub"])]);
    assert!(disk.entries.contains(&path(&["sub"])));
}

#[test]
fn nested_repair_creates_whole_chain() {
    let schema = item(
        Some(true),
        &[],
        vec![(
            "a",
            item(
                Some(true),
                &[],
                vec![("b", item(Some(true), &[], vec![("c", item(Some(true), &[], vec![]))]))],
            ),
        )],
    );
    let mut disk = Disk::new(&[]);
    assert_eq!(disk.verify(&schema), Ok(()));
    assert_eq!(
        disk.created,
        vec![path(&["a"]), path(&["a", "b"]), path(&["a", "b", "c"])]
    );
    assert!(disk.entries.contains(&path(&["a", "b", "c"])));
}

#[test]
fn unconfigured_root_fails_before_any_request() {
    let mut config = StructureConfig::default();
    config.document = Some(item(None, &[], vec![]));
    match config.begin(DirKind::Audio, Ok(())) {
        Err(e) => assert_eq!(e, StructureError::FieldNotConfigured(DirKind::Audio)),
        Ok(_) => panic!("audio has no declared item"),
    }
    assert!(config.begin(DirKind::Document, Ok(())).is_ok());
}

#[test]
fn path_resolution_failure_comes_first() {
    let config = StructureConfig::default();
    match config.begin(DirKind::Home, Err("unsupported".to_string())) {
        Err(e) => assert_eq!(
            e,
            StructureError::PathResolution(DirKind::Home, "unsupported".to_string())
        ),
        Ok(_) => panic!("resolution failed"),
    }
}

#[test]
fn begin_walks_the_configured_item() {
    let mut config = StructureConfig::default();
    config.app_data = Some(item(None, &["settings.json"], vec![]));
    let w = match config.begin(DirKind::AppData, Ok(())) {
        Ok(w) => w,
        Err(e) => panic!("unexpected {:?}", e),
    };
    assert_eq!(w.request(), Request::Exists(path(&["settings.json"])));
}

#[test]
fn failed_creation_is_reported_with_its_reason() {
    let schema = item(Some(true), &[], vec![("sub", item(None, &[], vec![]))]);
    let mut disk = Disk::new(&[]);
    disk.fail_creation = Some("read-only".to_string());
    assert_eq!(
        disk.verify(&schema),
        Err(VerificationError::RepairFailed(path(&["sub"]), "read-only".to_string()))
    );
}

#[test]
fn files_are_checked_before_dirs() {
    let schema = item(Some(false), &["x.txt"], vec![("sub", item(None, &[], vec![]))]);
    let mut disk = Disk::new(&[]);
    assert_eq!(
        disk.verify(&schema),
        Err(VerificationError::MissingFile(path(&["x.txt"])))
    );
    assert_eq!(disk.asked, vec![path(&["x.txt"])]);
}

#[test]
fn walk_order_is_depth_first_in_declaration_order() {
    let schema = item(
        None,
        &["f1", "f2"],
        vec![
            ("d1", item(None, &["g"], vec![("e", item(None, &[], vec![]))])),
            ("d2", item(None, &[], vec![])),
        ],
    );
    let mut disk = Disk::new(&[&["f1"], &["f2"], &["d1", "g"], &["d1", "e"], &["d2"]]);
    assert_eq!(disk.verify(&schema), Ok(()));
    assert_eq!(
        disk.asked,
        vec![
            path(&["f1"]),
            path(&["f2"]),
            path(&["d1"]),
            path(&["d1", "g"]),
            path(&["d1", "e"]),
            path(&["d2"]),
        ]
    );
}

#[test]
fn existing_tree_passes_without_creation() {
    let schema = item(Some(true), &["a"], vec![("s", item(Some(true), &["b"], vec![]))]);
    let mut disk = Disk::new(&[&["a"], &["s", "b"]]);
    assert_eq!(disk.verify(&schema), Ok(()));
    assert!(disk.created.is_empty());
}

#[test]
fn mismatched_reply_leaves_the_request_pending() {
    let schema = item(None, &["a"], vec![]);
    let mut w = Walker::new(&schema);
    w.resume(Reply::Created(Ok(())));
    assert_eq!(w.request(), Request::Exists(path(&["a"])));
    w.resume(Reply::Exists(true));
    assert!(w.is_done());
    assert_eq!(w.request(), Request::Done(Ok(())));
    w.resume(Reply::Exists(false));
    assert_eq!(w.request(), Request::Done(Ok(())));
}

#[test]
fn failure_is_final() {
    let schema = item(None, &["a", "b"], vec![]);
    let mut w = Walker::new(&schema);
    w.resume(Reply::Exists(false));
    let failed = Request::Done(Err(VerificationError::MissingFile(path(&["a"]))));
    assert_eq!(w.request(), failed);
    w.resume(Reply::Exists(true));
    assert_eq!(w.request(), failed);
    assert!(w.is_done());
}

#[test]
fn full_repair_passes_over_partial_tree() {
    let schema = item(
        Some(true),
        &[],
        vec![
            ("a", item(Some(true), &[], vec![("b", item(Some(true), &[], vec![]))])),
            ("c", item(Some(true), &[], vec![])),
        ],
    );
    let mut disk = Disk::new(&[&["a"], &["c"]]);
    assert_eq!(disk.verify(&schema), Ok(()));
    assert_eq!(disk.created, vec![path(&["a", "b"])]);
    for p in [path(&["a"]), path(&["a", "b"]), path(&["c"])] {
        assert!(disk.entries.contains(&p));
    }
}

#[test]
fn missing_root_fails_on_first_reference_only() {
    let schema = item(None, &["a"], vec![]);
    let mut disk = Disk::new(&[]);
    assert_eq!(
        disk.verify(&schema),
        Err(VerificationError::MissingFile(path(&["a"])))
    );
    let bare = item(None, &[], vec![]);
    assert_eq!(disk.verify(&bare), Ok(()));
}
