use basiccli::commands::process::{
    Effect, ProcessCommand, ProcessNext, ProcessStep, EXIT_NOT_FOUND,
};
use basiccli::commands::workloads::{
    array_operations, chars_of, file_line, hash_operations, join_chars, json_parsing,
    mask_vowels, reversed, sample_document, sorted_descending, string_manipulation, FileAction,
    FileWorkload,
};
use basiccli::utils::file_handler::{FileError, FileMetadata, Timestamp};
use basiccli::utils::file_task::{FsReply, FsRequest};
use basiccli::utils::json::{invalid_json, reformat};
use basiccli::utils::logger::LogLevel;

#[test]
fn the_string_workload_builds_its_text() {
    assert_eq!(string_manipulation(7), "7- -D-L-R-O-W- -O-L-L-E-H");
    assert_eq!(string_manipulation(120), "0-2-1- -D-L-R-O-W- -O-L-L-E-H");
    for i in [0usize, 9, 10, 99, 12_345] {
        let mut s = format!("Hello World {}", i);
        s = s.to_uppercase();
        s = s.chars().rev().collect();
        s = s.replace(['a', 'e', 'i', 'o', 'u'], "*");
        let expected: String = s.chars().map(|c| c.to_string()).collect::<Vec<_>>().join("-");
        assert_eq!(string_manipulation(i), expected);
    }
}

#[test]
fn the_string_steps_one_by_one() {
    assert_eq!(chars_of("héllo"), vec!['h', 'é', 'l', 'l', 'o']);
    assert_eq!(reversed(&vec![1, 2, 3]), vec![3, 2, 1]);
    assert_eq!(reversed(&Vec::<u8>::new()), Vec::<u8>::new());
    assert_eq!(mask_vowels(&chars_of("audio AEIOU xyz")), chars_of("**d** AEIOU xyz"));
    assert_eq!(join_chars(&chars_of("abc"), '-'), "a-b-c");
    assert_eq!(join_chars(&chars_of("a"), '-'), "a");
    assert_eq!(join_chars(&chars_of(""), '-'), "");
}

#[test]
fn the_array_workload_adds_up_the_multiples_of_six() {
    let (numbers, sum) = array_operations(100);
    assert_eq!(sum, 3366);
    assert_eq!(numbers.len(), 33);
    assert_eq!(numbers[0], 198);
    assert_eq!(numbers[32], 6);
    let mut expected: Vec<i32> = (1..=100).map(|n| n * 2).filter(|n| n % 3 == 0).collect();
    expected.sort_unstable();
    expected.reverse();
    assert_eq!(numbers, expected);
    assert_eq!(array_operations(0), (vec![], 0));
    assert_eq!(array_operations(2), (vec![], 0));
    assert_eq!(array_operations(3), (vec![6], 6));
    assert_eq!(array_operations(10), (vec![18, 12, 6], 36));
    let (largest, sum) = array_operations(80_264);
    assert_eq!(largest.len(), 26_754);
    assert_eq!(sum, 2_147_409_810);
}

#[test]
fn the_file_workload_writes_padded_lines() {
    assert_eq!(file_line(0), format!("Line 0: {}\n", "x".repeat(100)));
    assert_eq!(file_line(41), format!("Line 41: {}\n", "x".repeat(100)));
}

#[test]
fn the_sample_document_is_what_serde_json_writes() {
    let text = sample_document();
    let value: serde_json::Value = serde_json::from_str(&text).unwrap();
    assert_eq!(serde_json::to_string(&value).unwrap(), text);
    let users = value["users"].as_array().unwrap();
    assert_eq!(users.len(), 10);
    assert_eq!(users[0]["id"], 1);
    assert_eq!(users[9]["id"], 10);
    assert_eq!(users[2]["name"], "User 3");
    assert_eq!(users[2]["email"], "user3@example.com");
    assert_eq!(users[2]["metadata"]["created_at"], "2025-01-15T00:00:00Z");
    assert_eq!(users[2]["metadata"]["tags"].as_array().unwrap().len(), 4);
    assert_eq!(users[2]["metadata"]["tags"][3], "benchmark");
}

#[test]
fn the_json_workload_writes_the_document_back() {
    let text = sample_document();
    assert_eq!(json_parsing(&text), Some(text.clone()));
    assert_eq!(json_parsing("{ \"b\" : [1, 2 ],\n \"a\": null }"), Some("{\"a\":null,\"b\":[1,2]}".to_string()));
    assert_eq!(json_parsing("{not json"), None);
    assert_eq!(json_parsing(""), None);
}

#[test]
fn the_map_workload_keeps_what_is_over_fifty() {
    let outcome = hash_operations(100);
    assert_eq!(outcome.value_sum, 9900);
    let mut keys: Vec<String> = (0..100).map(|i| format!("key_{}", i)).collect();
    keys.sort();
    assert_eq!(outcome.sorted_keys, keys);
    assert_eq!(outcome.sorted_keys[1], "key_1");
    assert_eq!(outcome.sorted_keys[2], "key_10");
    assert_eq!(outcome.kept.len(), 75);
    assert_eq!(outcome.kept.get("key_25"), None);
    assert_eq!(outcome.kept.get("key_26"), Some(&52));
    assert_eq!(outcome.kept.get("key_99"), Some(&198));
    assert_eq!(outcome.kept.get("extra"), Some(&999));
    assert_eq!(outcome.kept.entry_at(74), (&"extra".to_string(), &999));
    let small = hash_operations(3);
    assert_eq!(small.value_sum, 6);
    assert_eq!(small.kept.len(), 1);
    let none = hash_operations(0);
    assert_eq!(none.value_sum, 0);
    assert_eq!(none.kept.keys(), vec!["extra".to_string()]);
}

#[test]
fn json_is_printed_compact_or_pretty() {
    let text = "{\"name\": \"Test\", \"value\": 42}";
    assert_eq!(reformat(text, false).unwrap(), "{\"name\":\"Test\",\"value\":42}");
    assert_eq!(reformat(text, true).unwrap(), "{\n  \"name\": \"Test\",\n  \"value\": 42\n}");
    assert!(matches!(reformat("[1, 2", false), Err(FileError::InvalidJson(_))));
    assert!(matches!(reformat("[1, 2", true), Err(FileError::InvalidJson(_))));
}

#[test]
fn the_process_command_says_what_it_does() {
    let plain = ProcessCommand::new("data.json".to_string(), false, false);
    let full = ProcessCommand::new("data.json".to_string(), true, true);
    assert_eq!(plain.log_level(), LogLevel::Info);
    assert_eq!(full.log_level(), LogLevel::Debug);
    assert_eq!(plain.announcement(), "Processing file: data.json");
    assert_eq!(plain.not_found_message(), "File not found: data.json");
    assert_eq!(ProcessCommand::keys_message(3), "Successfully parsed JSON with 3 keys");
    assert_eq!(ProcessCommand::size_message(1024), "File size: 1024 bytes");
    assert_eq!(EXIT_NOT_FOUND, 1);
    assert_eq!(plain.render("[1, 2]").unwrap(), "[1,2]");
    assert_eq!(full.render("[1, 2]").unwrap(), "[\n  1,\n  2\n]");
    assert!(matches!(plain.render("nope"), Err(FileError::InvalidJson(_))));
}

fn answer(step: ProcessStep, reply: FsReply) -> ProcessStep {
    match step.next {
        ProcessNext::Ask(_, task) => task.advance(reply),
        other => panic!("nothing was asked: {:?}", other),
    }
}

fn asked(step: &ProcessStep) -> FsRequest {
    match &step.next {
        ProcessNext::Ask(request, task) => {
            assert_eq!(&task.pending(), request);
            request.clone()
        }
        other => panic!("nothing was asked: {:?}", other),
    }
}

fn metadata(size: u64) -> FsReply {
    FsReply::Metadata(FileMetadata {
        size,
        modified_at: Timestamp { nanos_since_epoch: 0 },
        created_at: None,
        accessed_at: None,
        is_directory: false,
        is_file: true,
        mode: None,
    })
}

#[test]
fn processing_a_missing_file_exits_with_status_one() {
    let step = ProcessCommand::new("gone.json".to_string(), false, false).start();
    assert_eq!(
        step.effects,
        vec![Effect::Log(LogLevel::Info, "Processing file: gone.json".to_string())]
    );
    assert_eq!(asked(&step), FsRequest::Exists("gone.json".to_string()));
    let step = answer(step, FsReply::Exists(false));
    assert_eq!(
        step.effects,
        vec![Effect::Log(LogLevel::Error, "File not found: gone.json".to_string())]
    );
    assert_eq!(step.next, ProcessNext::Exit(1));
}

#[test]
fn processing_prints_the_document() {
    let step = ProcessCommand::new("data.json".to_string(), false, false).start();
    let step = answer(step, FsReply::Exists(true));
    assert!(step.effects.is_empty());
    assert_eq!(asked(&step), FsRequest::ReadText("data.json".to_string()));
    let step = answer(step, FsReply::Text("{\"b\": 1, \"a\": [true]}".to_string()));
    assert_eq!(
        step.effects,
        vec![
            Effect::Log(LogLevel::Info, "Successfully parsed JSON with 2 keys".to_string()),
            Effect::Print("{\"a\":[true],\"b\":1}".to_string()),
        ]
    );
    assert_eq!(step.next, ProcessNext::Done);
}

#[test]
fn processing_with_statistics_reports_the_size() {
    let step = ProcessCommand::new("data.json".to_string(), true, true).start();
    let step = answer(step, FsReply::Exists(true));
    let step = answer(step, FsReply::Text("[1]".to_string()));
    assert_eq!(step.effects, vec![Effect::Print("[\n  1\n]".to_string())]);
    assert_eq!(asked(&step), FsRequest::Metadata("data.json".to_string()));
    let step = answer(step, metadata(3));
    assert_eq!(
        step.effects,
        vec![
            Effect::Log(LogLevel::Info, "File size: 3 bytes".to_string()),
            Effect::Log(LogLevel::Info, "Processing complete".to_string()),
        ]
    );
    assert_eq!(step.next, ProcessNext::Done);
}

#[test]
fn processing_what_is_no_json_fails() {
    let step = ProcessCommand::new("data.json".to_string(), false, true).start();
    let step = answer(step, FsReply::Exists(true));
    let step = answer(step, FsReply::Text("{oops".to_string()));
    match (&step.effects[..], &step.next) {
        ([Effect::Log(LogLevel::Error, logged)], ProcessNext::Fail(FileError::InvalidJson(m))) => {
            assert_eq!(logged, &format!("Invalid JSON: {}", m));
            let refused = serde_json::from_str::<serde_json::Value>("{oops").unwrap_err();
            assert_eq!(m, &refused.to_string());
        }
        other => panic!("unexpected step {:?}", other),
    }
}

#[test]
fn processing_passes_failures_on() {
    let step = ProcessCommand::new("data.json".to_string(), false, false).start();
    let step = answer(step, FsReply::Exists(true));
    let step = answer(step, FsReply::Failed("denied".to_string()));
    assert!(step.effects.is_empty());
    assert_eq!(
        step.next,
        ProcessNext::Fail(FileError::ReadError("data.json".to_string(), "denied".to_string()))
    );
    let step = ProcessCommand::new("data.json".to_string(), false, false).start();
    let step = answer(step, FsReply::Done);
    assert_eq!(
        step.next,
        ProcessNext::Fail(FileError::OperationFailed("unexpected reply".to_string()))
    );
}

#[test]
fn numbers_are_sorted_downwards() {
    assert_eq!(sorted_descending(vec![3, -1, 7, 3, 0]), vec![7, 3, 3, 0, -1]);
    assert_eq!(sorted_descending(vec![]), Vec::<i32>::new());
    assert_eq!(sorted_descending(vec![i32::MIN, i32::MAX]), vec![i32::MAX, i32::MIN]);
}

fn file_actions(iterations: usize, create: bool, others: bool) -> Vec<FileAction> {
    let mut seen = Vec::new();
    let mut pending = Some(FileWorkload::start(iterations));
    while let Some((action, state)) = pending {
        let succeeded = if action == FileAction::Create { create } else { others };
        seen.push(action);
        pending = state.advance(succeeded);
    }
    seen
}

#[test]
fn the_file_workload_writes_and_flushes_every_line() {
    let expected = vec![
        FileAction::Create,
        FileAction::Write(file_line(0)),
        FileAction::Flush,
        FileAction::Write(file_line(1)),
        FileAction::Flush,
        FileAction::Write(file_line(2)),
        FileAction::Flush,
    ];
    assert_eq!(file_actions(3, true, true), expected);
    assert_eq!(file_actions(3, true, false), expected);
    assert_eq!(file_actions(10, true, true).len(), 21);
}

#[test]
fn the_file_workload_without_a_file_does_nothing() {
    assert_eq!(file_actions(3, false, true), vec![FileAction::Create]);
    assert_eq!(file_actions(0, true, true), vec![FileAction::Create]);
}

#[test]
fn a_refusal_carries_the_message_unchanged() {
    assert_eq!(
        invalid_json("expected value at line 1 column 1".to_string()),
        FileError::InvalidJson("expected value at line 1 column 1".to_string())
    );
    assert_eq!(invalid_json(String::new()), FileError::InvalidJson(String::new()));
    match reformat("", false) {
        Err(FileError::InvalidJson(message)) => {
            let direct = serde_json::from_str::<serde_json::Value>("").unwrap_err();
            assert_eq!(message, direct.to_string());
        }
        other => panic!("unexpected result {:?}", other),
    }
}

#[test]
fn a_document_is_shown_with_its_key_count() {
    let quiet = ProcessCommand::new("d.json".to_string(), false, false);
    let step = quiet.clone().shown_step(Some(2), "{}".to_string());
    assert_eq!(
        step.effects,
        vec![
            Effect::Log(LogLevel::Info, "Successfully parsed JSON with 2 keys".to_string()),
            Effect::Print("{}".to_string()),
        ]
    );
    assert_eq!(step.next, ProcessNext::Done);
    let step = quiet.clone().shown_step(None, "[]".to_string());
    assert_eq!(step.effects, vec![Effect::Print("[]".to_string())]);
    let full = ProcessCommand::new("d.json".to_string(), false, true);
    let step = full.shown_step(None, "[]".to_string());
    assert_eq!(asked(&step), FsRequest::Metadata("d.json".to_string()));
    let step = ProcessCommand::refused_step("bad".to_string());
    assert_eq!(step.effects, vec![Effect::Log(LogLevel::Error, "Invalid JSON: bad".to_string())]);
    assert_eq!(step.next, ProcessNext::Fail(FileError::InvalidJson("bad".to_string())));
    assert_eq!(quiet.print("[1, 2]").effects, vec![Effect::Print("[1,2]".to_string())]);
}
