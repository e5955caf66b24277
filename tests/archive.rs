use std::collections::BTreeMap;
use std::io::{Cursor, Write};

use mod_installer::extract::{plan_entry, EntryAction, ExtractionCause, ExtractionError, Extraction};

fn zip_of(entries: &[(&str, Option<&[u8]>)]) -> Vec<u8> {
    let mut w = zip::ZipWriter::new(Cursor::new(Vec::new()));
    let opts = zip::write::FileOptions::default().compression_method(zip::CompressionMethod::Stored);
    for (name, contents) in entries {
        match contents {
            None => w.add_directory(*name, opts).unwrap(),
            Some(bytes) => {
                w.start_file(*name, opts).unwrap();
                w.write_all(bytes).unwrap();
            }
        }
    }
    w.finish().unwrap().into_inner()
}

/// A stand-in filesystem: directories and files by path.
#[derive(Default)]
struct Disk {
    dirs: Vec<String>,
    files: BTreeMap<String, Vec<u8>>,
}

impl Disk {
    fn apply(&mut self, a: EntryAction) {
        match a {
            EntryAction::CreateDir { path } => self.dirs.push(path),
            EntryAction::WriteFile { path, contents } => {
                self.files.insert(path, contents);
            }
        }
    }
}

fn extract_into(data: Vec<u8>, root: &str, disk: &mut Disk) -> Result<(), ExtractionError> {
    let mut x = Extraction::open(data, root)?;
    while let Some(step) = x.next_action() {
        disk.apply(step?);
    }
    Ok(())
}

#[test]
fn directory_and_file_are_unpacked() {
    let data = zip_of(&[("config/", None), ("config/settings.txt", Some(b"a=1"))]);
    let mut disk = Disk::default();
    extract_into(data, "D", &mut disk).unwrap();
    assert_eq!(disk.dirs, vec![String::from("D/config/")]);
    assert_eq!(disk.files.get("D/config/settings.txt").unwrap(), b"a=1");
    assert_eq!(disk.files.len(), 1);
}

#[test]
fn actions_come_in_archive_order() {
    let data = zip_of(&[("b.txt", Some(b"2")), ("a.txt", Some(b"1"))]);
    let mut x = Extraction::open(data, "D/").unwrap();
    match x.next_action() {
        Some(Ok(EntryAction::WriteFile { path, contents })) => {
            assert_eq!(path, "D/b.txt");
            assert_eq!(contents, b"2");
        }
        _ => panic!("expected the first file"),
    }
    match x.next_action() {
        Some(Ok(EntryAction::WriteFile { path, .. })) => assert_eq!(path, "D/a.txt"),
        _ => panic!("expected the second file"),
    }
    assert!(x.next_action().is_none());
}

#[test]
fn malformed_archive_is_an_extraction_error() {
    let mut disk = Disk::default();
    let e = extract_into(b"this is not an archive".to_vec(), "D", &mut disk).unwrap_err();
    assert_eq!(e, ExtractionError { entry_index: None, cause: ExtractionCause::MalformedArchive });
    assert!(disk.files.is_empty());
}

#[test]
fn corrupt_entry_fails_without_rollback() {
    let mut data = zip_of(&[("first.txt", Some(b"kept")), ("second.txt", Some(b"MARKERMARKER"))]);
    let at = data.windows(12).position(|w| w == b"MARKERMARKER").unwrap();
    data[at] = b'X';
    let mut disk = Disk::default();
    let e = extract_into(data, "D", &mut disk).unwrap_err();
    assert_eq!(e, ExtractionError { entry_index: Some(1), cause: ExtractionCause::UnreadableEntry });
    assert_eq!(disk.files.get("D/first.txt").unwrap(), b"kept");
    assert!(disk.files.get("D/second.txt").is_none());
}

#[test]
fn aes_marked_entry_is_unreadable_not_a_panic() {
    let mut w = zip::ZipWriter::new(Cursor::new(Vec::new()));
    let opts = zip::write::FileOptions::default().compression_method(zip::CompressionMethod::Stored);
    w.start_file_with_extra_data("locked.txt", opts).unwrap();
    // An unreserved header id, turned into the AES one (0x9901) once written.
    let field = [0xcd, 0xab, 0x07, 0x00, 0x02, 0x00, 0x41, 0x45, 0x03, 0x00, 0x00];
    w.write_all(&field).unwrap();
    w.end_extra_data().unwrap();
    w.write_all(b"data").unwrap();
    let mut data = w.finish().unwrap().into_inner();
    let mut patched = 0;
    let mut k = 0;
    while k + field.len() <= data.len() {
        if data[k..k + field.len()] == field {
            data[k] = 0x01;
            data[k + 1] = 0x99;
            patched += 1;
        }
        k += 1;
    }
    assert_eq!(patched, 2);
    let mut disk = Disk::default();
    let e = extract_into(data, "D", &mut disk).unwrap_err();
    assert_eq!(e, ExtractionError { entry_index: Some(0), cause: ExtractionCause::UnreadableEntry });
    assert!(disk.files.is_empty());
}

#[test]
fn escaping_entry_is_refused() {
    let data = zip_of(&[("ok.txt", Some(b"1")), ("../evil.txt", Some(b"x")), ("later.txt", Some(b"2"))]);
    let mut disk = Disk::default();
    let e = extract_into(data, "D", &mut disk).unwrap_err();
    assert_eq!(e, ExtractionError { entry_index: Some(1), cause: ExtractionCause::UnsafePath });
    assert_eq!(disk.files.len(), 1);
}

#[test]
fn write_failure_stops_extraction() {
    let data = zip_of(&[("a.txt", Some(b"1")), ("b.txt", Some(b"2"))]);
    let mut x = Extraction::open(data, "D").unwrap();
    assert!(matches!(x.next_action(), Some(Ok(_))));
    let e = x.write_failed();
    assert_eq!(e, ExtractionError { entry_index: Some(0), cause: ExtractionCause::WriteFailed });
    assert!(x.next_action().is_none());
}

#[test]
fn entry_names_are_checked() {
    for bad in ["", "/etc/passwd", "\\x", "..", "../a", "a/../../b", "a\\..\\..\\b", "C:evil", "c:/x", "x/../..", "./.."] {
        assert_eq!(plan_entry("D", bad, Vec::new()).unwrap_err(), ExtractionCause::UnsafePath, "{}", bad);
    }
    for good in ["a", "a/b/", "..a", "a..", "a/..b/c", ".hidden", "a/../b", "a\\..\\b", "x/..", "mods/a:b.jar", "./a", "a//b"] {
        assert!(plan_entry("D", good, Vec::new()).is_ok(), "{}", good);
    }
}

#[test]
fn entry_with_parent_segment_under_root_is_unpacked() {
    let data = zip_of(&[("a/../b.txt", Some(b"x"))]);
    let mut disk = Disk::default();
    extract_into(data, "D", &mut disk).unwrap();
    assert_eq!(disk.files.get("D/a/../b.txt").unwrap(), b"x");
}

#[test]
fn plan_joins_root_and_name() {
    match plan_entry("root", "mods/x.jar", vec![1, 2]).unwrap() {
        EntryAction::WriteFile { path, contents } => {
            assert_eq!(path, "root/mods/x.jar");
            assert_eq!(contents, vec![1, 2]);
        }
        _ => panic!("expected a file"),
    }
    match plan_entry("root\\", "mods\\", Vec::new()).unwrap() {
        EntryAction::CreateDir { path } => assert_eq!(path, "root\\mods\\"),
        _ => panic!("expected a directory"),
    }
    match plan_entry("", "a", Vec::new()).unwrap() {
        EntryAction::WriteFile { path, .. } => assert_eq!(path, "a"),
        _ => panic!("expected a file"),
    }
}
