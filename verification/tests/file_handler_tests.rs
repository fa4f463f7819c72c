use basiccli::utils::digest::{to_hex, Algorithm};
use basiccli::utils::file_handler::{FileError, FileHandler, FileMetadata, Timestamp};
use basiccli::utils::file_task::{
    checksum_of_bytes, FileOp, FileOutput, FileTask, FsReply, FsRequest, Step,
};
use std::collections::{BTreeMap, BTreeSet};
use std::path::Path;

/// A host that keeps its files in memory.
struct Disk {
    files: BTreeMap<String, Vec<u8>>,
    dirs: BTreeSet<String>,
}

impl Disk {
    fn new() -> Disk {
        Disk { files: BTreeMap::new(), dirs: BTreeSet::new() }
    }

    fn holds(&self, path: &str) -> bool {
        self.files.contains_key(path) || self.dirs.contains(path)
    }

    fn perform(&mut self, request: FsRequest) -> FsReply {
        match request {
            FsRequest::Exists(path) => FsReply::Exists(self.holds(&path)),
            FsRequest::ReadText(path) => match self.files.get(&path) {
                Some(bytes) => match String::from_utf8(bytes.clone()) {
                    Ok(text) => FsReply::Text(text),
                    Err(e) => FsReply::Failed(e.to_string()),
                },
                None => FsReply::Failed("no such file".to_string()),
            },
            FsRequest::ReadBytes(path) => match self.files.get(&path) {
                Some(bytes) => FsReply::Bytes(bytes.clone()),
                None => FsReply::Failed("no such file".to_string()),
            },
            FsRequest::CreateParentDirs(path) => {
                let mut parent = Path::new(&path).parent();
                while let Some(dir) = parent {
                    if !dir.as_os_str().is_empty() {
                        self.dirs.insert(dir.to_str().unwrap().to_string());
                    }
                    parent = dir.parent();
                }
                FsReply::Done
            }
            FsRequest::WriteText(path, text) => {
                self.files.insert(path, text.into_bytes());
                FsReply::Done
            }
            FsRequest::WriteBytes(path, bytes) => {
                self.files.insert(path, bytes);
                FsReply::Done
            }
            FsRequest::Copy(from, to) => match self.files.get(&from).cloned() {
                Some(bytes) => {
                    self.files.insert(to, bytes);
                    FsReply::Done
                }
                None => FsReply::Failed("no such file".to_string()),
            },
            FsRequest::Rename(from, to) => match self.files.remove(&from) {
                Some(bytes) => {
                    self.files.insert(to, bytes);
                    FsReply::Done
                }
                None => FsReply::Failed("no such file".to_string()),
            },
            FsRequest::Remove(path) => match self.files.remove(&path) {
                Some(_) => FsReply::Done,
                None => FsReply::Failed("no such file".to_string()),
            },
            FsRequest::Metadata(path) => match self.files.get(&path) {
                Some(bytes) => FsReply::Metadata(FileMetadata {
                    size: bytes.len() as u64,
                    modified_at: Timestamp { nanos_since_epoch: 1_700_000_000_000_000_000 },
                    created_at: None,
                    accessed_at: None,
                    is_directory: false,
                    is_file: true,
                    mode: Some(0o100644),
                }),
                None => FsReply::Failed("no such file".to_string()),
            },
        }
    }

    fn run(&mut self, mut step: Step) -> Result<FileOutput, FileError> {
        loop {
            match step {
                Step::Finished(result) => return result,
                Step::Ask(request, task) => step = task.advance(self.perform(request)),
            }
        }
    }

    fn read_text(&mut self, path: &str) -> String {
        match self.run(FileHandler::read(path)) {
            Ok(FileOutput::Text(text)) => text,
            other => panic!("unexpected result {:?}", other),
        }
    }
}

fn path_in(dir: &str, name: &str) -> String {
    Path::new(dir).join(name).to_str().unwrap().to_string()
}

#[test]
fn test_read_write() {
    let mut disk = Disk::new();
    let dir = "/tmp/work";
    let file_path = path_in(dir, "test.txt");

    disk.run(FileHandler::write(&file_path, "Hello, World!")).unwrap();
    let content = disk.read_text(&file_path);

    assert_eq!(content, "Hello, World!");
}

#[test]
fn test_json_operations() {
    let mut disk = Disk::new();
    let dir = "/tmp/work";
    let file_path = path_in(dir, "test.json");

    let mut object = serde_json::Map::new();
    object.insert("name".to_string(), serde_json::Value::from("Test"));
    object.insert("value".to_string(), serde_json::Value::from(42));
    let data = serde_json::Value::Object(object);

    let serialized = serde_json::to_string_pretty(&data).map_err(|e| e.to_string());
    disk.run(FileHandler::write_json(&file_path, serialized)).unwrap();
    let text = match disk.run(FileHandler::read_json(&file_path)) {
        Ok(FileOutput::Text(text)) => text,
        other => panic!("unexpected result {:?}", other),
    };
    let loaded: serde_json::Value =
        FileHandler::parsed_json(serde_json::from_str(&text).map_err(|e| e.to_string())).unwrap();

    assert_eq!(data, loaded);
}

#[test]
fn test_copy_file() {
    let mut disk = Disk::new();
    let dir = "/tmp/work";
    let source = path_in(dir, "source.txt");
    let dest = path_in(dir, "dest.txt");

    disk.run(FileHandler::write(&source, "test content")).unwrap();
    disk.run(FileHandler::copy(&source, &dest)).unwrap();

    assert!(disk.holds(&dest));
    assert_eq!(disk.read_text(&dest), "test content");
}

#[test]
fn test_move_file() {
    let mut disk = Disk::new();
    let dir = "/tmp/work";
    let source = path_in(dir, "source.txt");
    let dest = path_in(dir, "dest.txt");

    disk.run(FileHandler::write(&source, "move me")).unwrap();
    disk.run(FileHandler::move_file(&source, &dest)).unwrap();

    assert!(!disk.holds(&source));
    assert!(disk.holds(&dest));
    assert_eq!(disk.read_text(&dest), "move me");
}

#[test]
fn test_delete_file() {
    let mut disk = Disk::new();
    let dir = "/tmp/work";
    let file_path = path_in(dir, "delete_me.txt");

    disk.run(FileHandler::write(&file_path, "temporary")).unwrap();
    let result = disk.run(FileHandler::delete(&file_path)).unwrap();

    assert_eq!(result, FileOutput::Flag(true));
    assert!(!disk.holds(&file_path));
}

#[test]
fn test_checksum() {
    let mut disk = Disk::new();
    let dir = "/tmp/work";
    let file_path = path_in(dir, "checksum.txt");

    disk.run(FileHandler::write(&file_path, "Hello World")).unwrap();

    let sha256 = match disk.run(FileHandler::checksum(&file_path, "sha256")) {
        Ok(FileOutput::Text(text)) => text,
        other => panic!("unexpected result {:?}", other),
    };
    assert_eq!(sha256.len(), 64);

    let md5 = match disk.run(FileHandler::checksum(&file_path, "md5")) {
        Ok(FileOutput::Text(text)) => text,
        other => panic!("unexpected result {:?}", other),
    };
    assert_eq!(md5.len(), 32);
}

#[test]
fn checksum_of_hello_world_has_the_known_digests() {
    let data = b"Hello World";
    assert_eq!(
        checksum_of_bytes("sha256", data).unwrap(),
        "a591a6d40bf420404a011733cfb7b190d62c65bf0bcda32b57b277d9ad9f146e"
    );
    assert_eq!(checksum_of_bytes("md5", data).unwrap(), "b10a8db164e0754105b7a99be72e3fe5");
    assert_eq!(
        checksum_of_bytes("sha1", data).unwrap(),
        "0a4d55a8d778e5022fab701977c5d840bbc486d0"
    );
    assert_eq!(
        checksum_of_bytes("sha512", data).unwrap(),
        "2c74fd17edafd80e8447b0d46741ee243b7eb74dd2149a0ab1b9246fb30382f27e853d8585719e0e67cbda0daa8f51671064615d645ae27acb15bfb1447f459b"
    );
}

#[test]
fn checksum_is_stable_and_follows_the_content() {
    let first = checksum_of_bytes("sha256", b"Hello World").unwrap();
    let again = checksum_of_bytes("sha256", b"Hello World").unwrap();
    let other = checksum_of_bytes("sha256", b"Hello World!").unwrap();
    assert_eq!(first, again);
    assert_ne!(first, other);
    assert!(first.chars().all(|c| c.is_ascii_digit() || ('a'..='f').contains(&c)));
    assert_eq!(
        checksum_of_bytes("sha256", b"").unwrap(),
        "e3b0c44298fc1c149afbf4c8996fb92427ae41e4649b934ca495991b7852b855"
    );
}

#[test]
fn checksum_says_which_algorithm_it_does_not_support() {
    for name in ["crc32", "SHA256", "sha384", ""] {
        match checksum_of_bytes(name, b"Hello World") {
            Err(e) => assert_eq!(e.message(), format!("Unsupported algorithm: {}", name)),
            Ok(text) => panic!("unexpected checksum {}", text),
        }
    }
    for (name, length) in [("md5", 32), ("sha1", 40), ("sha256", 64), ("sha512", 128)] {
        assert_eq!(checksum_of_bytes(name, b"Hello World").unwrap().len(), length);
    }
}

#[test]
fn checksum_refuses_an_unknown_algorithm() {
    assert_eq!(
        checksum_of_bytes("crc32", b"Hello World"),
        Err(FileError::UnsupportedAlgorithm("crc32".to_string()))
    );
    assert_eq!(Algorithm::from_name("SHA256"), None);
    assert_eq!(Algorithm::from_name("sha512"), Some(Algorithm::Sha512));
}

#[test]
fn checksum_of_a_file_reads_before_it_refuses() {
    let mut disk = Disk::new();
    let dir = "/tmp/work";
    let present = path_in(dir, "present.txt");
    let absent = path_in(dir, "absent.txt");
    disk.run(FileHandler::write(&present, "x")).unwrap();
    assert_eq!(
        disk.run(FileHandler::checksum(&present, "crc32")),
        Err(FileError::UnsupportedAlgorithm("crc32".to_string()))
    );
    assert_eq!(
        disk.run(FileHandler::checksum(&absent, "crc32")),
        Err(FileError::NotFound(absent.clone()))
    );
}

#[test]
fn hex_is_lower_case_with_two_digits_per_byte() {
    assert_eq!(to_hex(&[0x00, 0x0f, 0xa0, 0xff, 0x5c]), "000fa0ff5c");
    assert_eq!(to_hex(&[]), "");
    assert_eq!(Algorithm::Md5.digest(b"Hello World").len(), 16);
    assert_eq!(Algorithm::Sha1.digest(b"Hello World").len(), 20);
    assert_eq!(Algorithm::Sha256.digest(b"Hello World").len(), 32);
    assert_eq!(Algorithm::Sha512.digest(b"Hello World").len(), 64);
}

#[test]
fn read_of_a_missing_file_is_not_found() {
    let mut disk = Disk::new();
    let dir = "/tmp/work";
    let missing = path_in(dir, "missing.txt");
    assert_eq!(disk.run(FileHandler::read(&missing)), Err(FileError::NotFound(missing.clone())));
    assert_eq!(disk.run(FileHandler::size(&missing)), Err(FileError::NotFound(missing.clone())));
    assert_eq!(disk.run(FileHandler::stats(&missing)), Err(FileError::NotFound(missing.clone())));
}

#[test]
fn delete_of_a_missing_file_is_false() {
    let mut disk = Disk::new();
    let dir = "/tmp/work";
    let missing = path_in(dir, "missing.txt");
    assert_eq!(disk.run(FileHandler::delete(&missing)), Ok(FileOutput::Flag(false)));
    assert_eq!(disk.run(FileHandler::path_exists(&missing)), Ok(FileOutput::Flag(false)));
}

#[test]
fn delete_then_exists_is_false() {
    let mut disk = Disk::new();
    let dir = "/tmp/work";
    let path = path_in(dir, "gone.txt");
    disk.run(FileHandler::write(&path, "x")).unwrap();
    assert_eq!(disk.run(FileHandler::path_exists(&path)), Ok(FileOutput::Flag(true)));
    assert_eq!(disk.run(FileHandler::delete(&path)), Ok(FileOutput::Flag(true)));
    assert_eq!(disk.run(FileHandler::path_exists(&path)), Ok(FileOutput::Flag(false)));
}

#[test]
fn copy_and_move_of_a_missing_source_change_nothing() {
    let mut disk = Disk::new();
    let dir = "/tmp/work";
    let missing = path_in(dir, "missing.txt");
    let dest = path_in(dir, "sub/dest.txt");
    assert_eq!(
        disk.run(FileHandler::copy(&missing, &dest)),
        Err(FileError::NotFound(missing.clone()))
    );
    assert_eq!(
        disk.run(FileHandler::move_file(&missing, &dest)),
        Err(FileError::NotFound(missing.clone()))
    );
    assert!(!disk.holds(&dest));
    assert!(!disk.holds(&path_in(dir, "sub")));
    assert!(disk.files.is_empty());
}

#[test]
fn missing_source_asks_for_the_probe_only() {
    match FileHandler::copy("a.txt", "b.txt") {
        Step::Ask(request, task) => {
            assert_eq!(request, FsRequest::Exists("a.txt".to_string()));
            assert_eq!(
                task.advance(FsReply::Exists(false)),
                Step::Finished(Err(FileError::NotFound("a.txt".to_string())))
            );
        }
        other => panic!("unexpected step {:?}", other),
    }
}

#[test]
fn write_creates_parent_directories() {
    let mut disk = Disk::new();
    let dir = "/tmp/work";
    let nested = path_in(dir, "a/b/c.txt");
    disk.run(FileHandler::write(&nested, "deep")).unwrap();
    assert_eq!(disk.read_text(&nested), "deep");
}

#[test]
fn size_and_stats_report_the_file() {
    let mut disk = Disk::new();
    let dir = "/tmp/work";
    let path = path_in(dir, "sized.txt");
    disk.run(FileHandler::write(&path, "12345")).unwrap();
    assert_eq!(disk.run(FileHandler::size(&path)), Ok(FileOutput::Size(5)));
    match disk.run(FileHandler::stats(&path)) {
        Ok(FileOutput::Stats(stats)) => {
            assert_eq!(stats.size, 5);
            assert!(stats.is_file);
            assert!(!stats.is_directory);
            assert_eq!(stats.permissions, "644");
        }
        other => panic!("unexpected result {:?}", other),
    }
}

#[test]
fn permissions_are_the_low_nine_bits_in_octal() {
    let meta = FileMetadata {
        size: 0,
        modified_at: Timestamp { nanos_since_epoch: 0 },
        created_at: None,
        accessed_at: None,
        is_directory: false,
        is_file: true,
        mode: Some(0o100644),
    };
    assert_eq!(meta.to_stats().permissions, "644");
    let none = FileMetadata { mode: Some(0o040000), ..meta };
    assert_eq!(none.to_stats().permissions, "0");
    let unknown = FileMetadata { mode: None, ..meta };
    assert_eq!(unknown.to_stats().permissions, "N/A");
    let all = FileMetadata { mode: Some(0o777), ..meta };
    assert_eq!(all.to_stats().permissions, "777");
}

#[test]
fn atomic_write_goes_through_the_temporary_file() {
    let mut disk = Disk::new();
    let dir = "/tmp/work";
    let path = path_in(dir, "final.txt");
    let extension = FileHandler::temp_extension(4242);
    assert_eq!(extension, "tmp.4242");
    let temp = Path::new(&path).with_extension(&extension).to_str().unwrap().to_string();
    disk.run(FileHandler::atomic_write(&path, &temp, "whole")).unwrap();
    assert_eq!(disk.read_text(&path), "whole");
    assert!(!disk.holds(&temp));
}

#[test]
fn a_failed_primitive_reports_its_kind() {
    let read = FileTask::start(FileOp::Load("x".to_string()));
    match read {
        Step::Ask(_, task) => assert_eq!(
            task.advance(FsReply::Failed("denied".to_string())),
            Step::Finished(Err(FileError::ReadError("x".to_string(), "denied".to_string())))
        ),
        other => panic!("unexpected step {:?}", other),
    }
    match FileHandler::write("y", "c") {
        Step::Ask(_, task) => assert_eq!(
            task.advance(FsReply::Failed("full".to_string())),
            Step::Finished(Err(FileError::WriteError("y".to_string(), "full".to_string())))
        ),
        other => panic!("unexpected step {:?}", other),
    }
    match FileHandler::delete("z") {
        Step::Ask(_, task) => match task.advance(FsReply::Exists(true)) {
            Step::Ask(request, task) => {
                assert_eq!(request, FsRequest::Remove("z".to_string()));
                assert_eq!(
                    task.advance(FsReply::Failed("busy".to_string())),
                    Step::Finished(Err(FileError::OperationFailed("busy".to_string())))
                );
            }
            other => panic!("unexpected step {:?}", other),
        },
        other => panic!("unexpected step {:?}", other),
    }
}

#[test]
fn a_reply_of_the_wrong_kind_is_a_protocol_error() {
    match FileHandler::read("x") {
        Step::Ask(_, task) => assert_eq!(
            task.advance(FsReply::Done),
            Step::Finished(Err(FileError::OperationFailed("unexpected reply".to_string())))
        ),
        other => panic!("unexpected step {:?}", other),
    }
}

#[test]
fn error_messages_name_the_kind() {
    assert_eq!(FileError::NotFound("a".to_string()).message(), "File not found: a");
    assert_eq!(
        FileError::ReadError("a".to_string(), "b".to_string()).message(),
        "Failed to read a: b"
    );
    assert_eq!(
        FileError::WriteError("a".to_string(), "b".to_string()).message(),
        "Failed to write a: b"
    );
    assert_eq!(FileError::InvalidJson("x".to_string()).message(), "Invalid JSON: x");
    assert_eq!(FileError::InvalidYaml("x".to_string()).message(), "Invalid YAML: x");
    assert_eq!(FileError::InvalidCsv("x".to_string()).message(), "Invalid CSV: x");
    assert_eq!(FileError::UnsupportedFormat("x".to_string()).message(), "Unsupported format: x");
    assert_eq!(
        FileError::UnsupportedAlgorithm("x".to_string()).message(),
        "Unsupported algorithm: x"
    );
    assert_eq!(FileError::OperationFailed("x".to_string()).message(), "File operation failed: x");
}

#[test]
fn invalid_json_and_yaml_are_reported_as_such() {
    let refused = serde_json::from_str::<serde_json::Value>("{not json").unwrap_err().to_string();
    let json: Result<serde_json::Value, FileError> =
        FileHandler::parsed_json(serde_json::from_str("{not json").map_err(|e| e.to_string()));
    assert_eq!(json, Err(FileError::InvalidJson(refused.clone())));
    assert_eq!(json.unwrap_err().message(), format!("Invalid JSON: {}", refused));
    let unclosed = serde_yaml::from_str::<serde_yaml::Value>("a: [unclosed").unwrap_err().to_string();
    let yaml: Result<serde_yaml::Value, FileError> =
        FileHandler::parsed_yaml(serde_yaml::from_str("a: [unclosed").map_err(|e| e.to_string()));
    assert_eq!(yaml, Err(FileError::InvalidYaml(unclosed)));
    let good: Result<serde_yaml::Value, FileError> =
        FileHandler::parsed_yaml(serde_yaml::from_str("a: 1").map_err(|e| e.to_string()));
    assert!(good.is_ok());
    assert_eq!(
        FileHandler::write_json("x.json", Err("key must be a string".to_string())),
        Step::Finished(Err(FileError::InvalidJson("key must be a string".to_string())))
    );
    assert_eq!(
        FileHandler::write_yaml("x.yaml", Err("no".to_string())),
        Step::Finished(Err(FileError::InvalidYaml("no".to_string())))
    );
}

#[test]
fn yaml_round_trip_through_a_file() {
    let mut disk = Disk::new();
    let dir = "/tmp/work";
    let path = path_in(dir, "data.yaml");
    let value: serde_yaml::Value = serde_yaml::from_str("name: Test\nvalue: 42\n").unwrap();
    let serialized = serde_yaml::to_string(&value).map_err(|e| e.to_string());
    disk.run(FileHandler::write_yaml(&path, serialized)).unwrap();
    let text = match disk.run(FileHandler::read_yaml(&path)) {
        Ok(FileOutput::Text(text)) => text,
        other => panic!("unexpected result {:?}", other),
    };
    let loaded: serde_yaml::Value =
        FileHandler::parsed_yaml(serde_yaml::from_str(&text).map_err(|e| e.to_string())).unwrap();
    assert_eq!(value, loaded);
}

#[test]
fn to_ask_whether_a_path_exists_never_fails() {
    for reply in [
        FsReply::Failed("denied".to_string()),
        FsReply::Done,
        FsReply::Text("x".to_string()),
        FsReply::Exists(false),
    ] {
        match FileHandler::path_exists("a.txt") {
            Step::Ask(request, task) => {
                assert_eq!(request, FsRequest::Exists("a.txt".to_string()));
                assert_eq!(task.advance(reply), Step::Finished(Ok(FileOutput::Flag(false))));
            }
            other => panic!("unexpected step {:?}", other),
        }
    }
    match FileHandler::path_exists("a.txt") {
        Step::Ask(_, task) => assert_eq!(
            task.advance(FsReply::Exists(true)),
            Step::Finished(Ok(FileOutput::Flag(true)))
        ),
        other => panic!("unexpected step {:?}", other),
    }
}
