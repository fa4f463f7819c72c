use basiccli::utils::file_handler::{FileError, FileHandler};
use basiccli::utils::file_task::{FileOutput, FsReply, FsRequest, Step};
use basiccli::utils::records::{Record, StringMap};
use basiccli::utils::tabular::{
    encode_records, parse_records, record_from_row, records_from_rows, row_from_record,
};

fn record(pairs: &[(&str, &str)]) -> Record {
    let mut r = Record::new();
    for (k, v) in pairs {
        r.insert(k.to_string(), v.to_string());
    }
    r
}

fn text(bytes: Vec<u8>) -> String {
    String::from_utf8(bytes).unwrap()
}

#[test]
fn a_record_maps_keys_to_values() {
    let mut r = Record::new();
    assert_eq!(r.len(), 0);
    assert_eq!(r.get("a"), None);
    r.insert("a".to_string(), "1".to_string());
    r.insert("b".to_string(), "2".to_string());
    assert_eq!(r.get("a"), Some(&"1".to_string()));
    assert_eq!(r.get("b"), Some(&"2".to_string()));
    assert_eq!(r.get("c"), None);
    assert_eq!(r.keys(), vec!["a".to_string(), "b".to_string()]);
    r.insert("a".to_string(), "3".to_string());
    assert_eq!(r.len(), 2);
    assert_eq!(r.get("a"), Some(&"3".to_string()));
    assert_eq!(r.keys(), vec!["a".to_string(), "b".to_string()]);
    assert_eq!(r.entry_at(1), (&"b".to_string(), &"2".to_string()));
    let mut counts: StringMap<i32> = StringMap::new();
    counts.insert("x".to_string(), 1);
    counts.insert("x".to_string(), 2);
    assert_eq!(counts.get("x"), Some(&2));
    assert_eq!(counts.len(), 1);
}

#[test]
fn read_csv_of_two_rows_and_two_columns() {
    let records = parse_records(b"a,b\n1,2\n3,4\n").unwrap();
    assert_eq!(records, vec![record(&[("a", "1"), ("b", "2")]), record(&[("a", "3"), ("b", "4")])]);
    assert_eq!(records[0].get("a"), Some(&"1".to_string()));
    assert_eq!(records[0].get("b"), Some(&"2".to_string()));
    assert_eq!(records[1].get("a"), Some(&"3".to_string()));
    assert_eq!(records[1].get("b"), Some(&"4".to_string()));
}

#[test]
fn read_csv_edge_cases() {
    assert_eq!(parse_records(b"").unwrap(), Vec::<Record>::new());
    assert_eq!(parse_records(b"a,b\n").unwrap(), Vec::<Record>::new());
    let ragged = parse_records(b"a,b,c\n1\n1,2,3,4\n").unwrap();
    assert_eq!(ragged, vec![record(&[("a", "1")]), record(&[("a", "1"), ("b", "2"), ("c", "3")])]);
    assert_eq!(ragged[0].get("b"), None);
    let quoted = parse_records(b"name,note\n\"Doe, Jane\",\"said \"\"hi\"\"\"\n").unwrap();
    assert_eq!(quoted[0].get("name"), Some(&"Doe, Jane".to_string()));
    assert_eq!(quoted[0].get("note"), Some(&"said \"hi\"".to_string()));
    let twice = parse_records(b"a,a\n1,2\n").unwrap();
    assert_eq!(twice[0].len(), 1);
    assert_eq!(twice[0].get("a"), Some(&"2".to_string()));
}

#[test]
fn read_csv_refuses_bytes_that_are_no_text() {
    let data = [b'a', b',', b'b', b'\n', 0xff, 0xfe, b',', b'1', b'\n'];
    let mut reader = csv::ReaderBuilder::new().has_headers(false).flexible(true).from_reader(&data[..]);
    let refused = reader.records().find_map(|row| row.err()).unwrap().to_string();
    assert_eq!(parse_records(&data), Err(FileError::InvalidCsv(refused)));
}

#[test]
fn write_csv_takes_the_header_from_the_first_record() {
    let records = vec![
        record(&[("a", "1"), ("b", "2")]),
        record(&[("b", "4"), ("a", "3"), ("c", "ignored")]),
        record(&[("a", "only")]),
    ];
    assert_eq!(text(encode_records(&records).unwrap()), "a,b\n1,2\n3,4\nonly,\n");
    assert_eq!(text(encode_records(&Vec::new()).unwrap()), "");
    let quoted = vec![record(&[("name", "Doe, Jane"), ("note", "said \"hi\"")])];
    assert_eq!(
        text(encode_records(&quoted).unwrap()),
        "name,note\n\"Doe, Jane\",\"said \"\"hi\"\"\"\n"
    );
    let empty = vec![record(&[("only", "")])];
    assert_eq!(text(encode_records(&empty).unwrap()), "only\n\"\"\n");
}

#[test]
fn csv_written_is_csv_read() {
    let records = vec![
        record(&[("city", "Boston"), ("country", "United States"), ("pop", "4628910")]),
        record(&[("city", "São Paulo"), ("country", "Brazil"), ("pop", "12,300,000")]),
    ];
    let bytes = encode_records(&records).unwrap();
    assert_eq!(parse_records(&bytes).unwrap(), records);
}

#[test]
fn csv_files_go_through_the_protocol() {
    match FileHandler::read_csv("in.csv") {
        Step::Ask(request, task) => {
            assert_eq!(request, FsRequest::ReadBytes("in.csv".to_string()));
            assert_eq!(
                task.advance(FsReply::Bytes(b"a\n1\n".to_vec())),
                Step::Finished(Ok(FileOutput::Bytes(b"a\n1\n".to_vec())))
            );
        }
        other => panic!("unexpected step {:?}", other),
    }
    match FileHandler::write_csv("out.csv", &vec![record(&[("a", "1")])]) {
        Step::Ask(request, task) => {
            assert_eq!(request, FsRequest::WriteBytes("out.csv".to_string(), b"a\n1\n".to_vec()));
            assert_eq!(task.advance(FsReply::Done), Step::Finished(Ok(FileOutput::Done)));
        }
        other => panic!("unexpected step {:?}", other),
    }
    match FileHandler::write_csv("d/out.csv", &Vec::new()) {
        Step::Ask(request, task) => {
            assert_eq!(request, FsRequest::CreateParentDirs("d/out.csv".to_string()));
            match task.advance(FsReply::Done) {
                Step::Ask(request, _) => assert_eq!(
                    request,
                    FsRequest::WriteText("d/out.csv".to_string(), String::new())
                ),
                other => panic!("unexpected step {:?}", other),
            }
        }
        other => panic!("unexpected step {:?}", other),
    }
}

fn strings(fields: &[&str]) -> Vec<String> {
    fields.iter().map(|f| f.to_string()).collect()
}

#[test]
fn rows_become_records_under_the_first_row() {
    let rows = vec![strings(&["a", "b"]), strings(&["1", "2"]), strings(&["3"]), strings(&["4", "5", "6"])];
    assert_eq!(
        records_from_rows(&rows),
        vec![record(&[("a", "1"), ("b", "2")]), record(&[("a", "3")]), record(&[("a", "4"), ("b", "5")])]
    );
    assert_eq!(records_from_rows(&Vec::new()), Vec::<Record>::new());
    assert_eq!(records_from_rows(&vec![strings(&["a"])]), Vec::<Record>::new());
    assert_eq!(record_from_row(&strings(&["k", "k"]), &strings(&["1", "2"])), record(&[("k", "2")]));
    assert_eq!(
        row_from_record(&strings(&["b", "x", "a"]), &record(&[("a", "1"), ("b", "2")])),
        strings(&["2", "", "1"])
    );
}
