//! Comma-separated text to records and back.
//!
//! The `csv` crate splits bytes into rows of fields and quotes fields on
//! the way out. What a row means is decided here: the first row names the
//! columns, every later row becomes a record, and a record is written with
//! the first record's keys as its columns.

use crate::utils::file_handler::{FileError, FileErrorView};
use crate::utils::records::{keys_of, put, value_of, Entry, Record};
use vstd::prelude::*;

verus! {

/// What the `csv` reader makes of `data`, read without a header row and
/// with rows of any length: the rows of fields, or the message of the
/// error that it reports.
pub uninterp spec fn csv_rows(data: Seq<u8>) -> Result<Seq<Seq<Seq<char>>>, Seq<char>>;

/// What the `csv` writer makes of one record of `fields`: the bytes,
/// terminator included, or the message of the error that it reports.
pub uninterp spec fn csv_line(fields: Seq<Seq<char>>) -> Result<Seq<u8>, Seq<char>>;

/// Reads every record of `data` with a `csv::Reader` built with
/// `has_headers(false)` and `flexible(true)` and, on an error, takes the
/// error's text as its `Display` gives it. Trusted: the rows, or the
/// message, depend on the bytes alone.
#[verifier::external_body]
fn csv_parse(data: &[u8]) -> (r: Result<Vec<Vec<String>>, String>)
    ensures
        match r {
            Ok(rows) => csv_rows(data@) == Ok::<Seq<Seq<Seq<char>>>, Seq<char>>(rows.deep_view()),
            Err(message) => csv_rows(data@) == Err::<Seq<Seq<Seq<char>>>, Seq<char>>(message@),
        },
{
    let mut reader = csv::ReaderBuilder::new().has_headers(false).flexible(true).from_reader(data);
    let rows = reader.records().map(|row| row.map(|fields| fields.iter().map(String::from).collect()));
    rows.collect::<Result<Vec<Vec<String>>, csv::Error>>().map_err(|e| e.to_string())
}

/// Writes one record with a fresh `csv::Writer` over a byte vector and
/// takes the bytes back; on an error, takes the error's text as its
/// `Display` gives it. Trusted: the bytes, or the message, depend on the
/// fields alone.
#[verifier::external_body]
fn csv_encode_row(fields: &Vec<String>) -> (r: Result<Vec<u8>, String>)
    ensures
        match r {
            Ok(bytes) => csv_line(fields.deep_view()) == Ok::<Seq<u8>, Seq<char>>(bytes@),
            Err(message) => csv_line(fields.deep_view()) == Err::<Seq<u8>, Seq<char>>(message@),
        },
{
    let mut writer = csv::Writer::from_writer(Vec::new());
    writer.write_record(fields).map_err(|e| e.to_string())?;
    writer.into_inner().map_err(|e| e.to_string())
}

/// The entries of the record that `row` makes under `header`, built from
/// the first `n` columns: each column's field goes under the column's
/// name, a later column of the same name replacing an earlier one.
pub open spec fn zip_entries(header: Seq<Seq<char>>, row: Seq<Seq<char>>, n: nat) -> Seq<
    Entry<Seq<char>>,
>
    decreases n,
{
    if n == 0 {
        Seq::empty()
    } else {
        put(zip_entries(header, row, (n - 1) as nat), header[n - 1], row[n - 1])
    }
}

/// The number of columns that `row` fills under `header`: a short row
/// leaves the later columns out, a long row's extra fields are dropped.
pub open spec fn filled_columns(header: Seq<Seq<char>>, row: Seq<Seq<char>>) -> nat {
    if header.len() <= row.len() {
        header.len()
    } else {
        row.len()
    }
}

/// The records that `rows` stand for: the first row is the header, each
/// later row one record.
pub open spec fn records_of(rows: Seq<Seq<Seq<char>>>) -> Seq<Seq<Entry<Seq<char>>>> {
    if rows.len() == 0 {
        Seq::empty()
    } else {
        Seq::new(
            (rows.len() - 1) as nat,
            |i: int| zip_entries(rows[0], rows[i + 1], filled_columns(rows[0], rows[i + 1])),
        )
    }
}

/// The entries of each record of `records`.
pub open spec fn entries_of(records: Seq<Record>) -> Seq<Seq<Entry<Seq<char>>>> {
    Seq::new(records.len(), |i: int| records[i].entries())
}

/// What reading `data` as comma-separated text gives: the records of its
/// rows, or `InvalidCsv` with the reader's message.
pub open spec fn parsed_records(data: Seq<u8>) -> Result<
    Seq<Seq<Entry<Seq<char>>>>,
    FileErrorView,
> {
    match csv_rows(data) {
        Ok(rows) => Ok(records_of(rows)),
        Err(message) => Err(FileErrorView::InvalidCsv(message)),
    }
}

/// The fields of one record under `header`: the value under each column's
/// name, or nothing where the record has no such key.
pub open spec fn row_for(header: Seq<Seq<char>>, entries: Seq<Entry<Seq<char>>>) -> Seq<
    Seq<char>,
> {
    Seq::new(
        header.len(),
        |i: int|
            match value_of(entries, header[i]) {
                Some(v) => v,
                None => Seq::empty(),
            },
    )
}

/// The rows that `records` are written as: the keys of the first record
/// as the header, then one row per record in the header's order. No
/// record, no row.
pub open spec fn table_of(records: Seq<Seq<Entry<Seq<char>>>>) -> Seq<Seq<Seq<char>>> {
    if records.len() == 0 {
        Seq::empty()
    } else {
        seq![keys_of(records[0])] + Seq::new(
            records.len(),
            |i: int| row_for(keys_of(records[0]), records[i]),
        )
    }
}

/// The written form of `rows`: the lines of the rows one after another;
/// where some row cannot be written, the message for the first such row.
pub open spec fn csv_text(rows: Seq<Seq<Seq<char>>>) -> Result<Seq<u8>, Seq<char>>
    decreases rows.len(),
{
    if rows.len() == 0 {
        Ok(Seq::empty())
    } else {
        match csv_text(rows.drop_last()) {
            Err(message) => Err(message),
            Ok(head) => match csv_line(rows.last()) {
                Err(message) => Err(message),
                Ok(line) => Ok(head + line),
            },
        }
    }
}

/// What writing `records` as comma-separated text gives: the bytes, or
/// `InvalidCsv` with the writer's message for the first row that it does
/// not write.
pub open spec fn encoded_records(records: Seq<Seq<Entry<Seq<char>>>>) -> Result<
    Seq<u8>,
    FileErrorView,
> {
    match csv_text(table_of(records)) {
        Ok(bytes) => Ok(bytes),
        Err(message) => Err(FileErrorView::InvalidCsv(message)),
    }
}

/// Rows whose first rows cannot be written cannot be written, for the
/// same reason.
proof fn lemma_csv_text_prefix(rows: Seq<Seq<Seq<char>>>, n: int)
    requires
        0 <= n <= rows.len(),
        csv_text(rows.take(n)) is Err,
    ensures
        csv_text(rows) == csv_text(rows.take(n)),
    decreases rows.len() - n,
{
    if n < rows.len() {
        assert(rows.take(n + 1).drop_last() =~= rows.take(n));
        assert(csv_text(rows.take(n + 1)) == csv_text(rows.take(n)));
        lemma_csv_text_prefix(rows, n + 1);
    } else {
        assert(rows.take(n) =~= rows);
    }
}

/// The record that `row` makes under `header`.
pub fn record_from_row(header: &Vec<String>, row: &Vec<String>) -> (record: Record)
    ensures
        record.entries() == zip_entries(
            header.deep_view(),
            row.deep_view(),
            filled_columns(header.deep_view(), row.deep_view()),
        ),
{
    let n: usize = if header.len() <= row.len() {
        header.len()
    } else {
        row.len()
    };
    let mut record = Record::new();
    let mut i: usize = 0;
    while i < n
        invariant
            i <= n,
            n <= header.len(),
            n <= row.len(),
            record.entries() == zip_entries(header.deep_view(), row.deep_view(), i as nat),
        decreases n - i,
    {
        assert(header.deep_view()[i as int] == header@[i as int]@);
        assert(row.deep_view()[i as int] == row@[i as int]@);
        record.insert(header[i].clone(), row[i].clone());
        i = i + 1;
    }
    record
}

/// The records that `rows` stand for: the first row is the header, every
/// later row becomes a record from header name to field. A row with fewer
/// fields than the header leaves the later keys out. No row, no record.
pub fn records_from_rows(rows: &Vec<Vec<String>>) -> (records: Vec<Record>)
    ensures
        entries_of(records@) == records_of(rows.deep_view()),
{
    let mut records: Vec<Record> = Vec::new();
    let mut i: usize = 1;
    while i < rows.len()
        invariant
            1 <= i,
            rows.len() > 0 ==> i <= rows.len(),
            rows.len() > 0 ==> records@.len() == i - 1,
            rows.len() == 0 ==> records@.len() == 0,
            forall|k: int|
                0 <= k < records@.len() ==> (#[trigger] records@[k]).entries() == records_of(
                    rows.deep_view(),
                )[k],
        decreases rows.len() - i,
    {
        let record = record_from_row(&rows[0], &rows[i]);
        assert(rows.deep_view()[0] == rows@[0].deep_view());
        assert(rows.deep_view()[i as int] == rows@[i as int].deep_view());
        records.push(record);
        i = i + 1;
    }
    assert(entries_of(records@) =~= records_of(rows.deep_view()));
    records
}

/// Reads comma-separated `data` into records.
///
/// The first row is the header. Every later row becomes a record from
/// header name to field; a row with fewer fields than the header leaves
/// the later keys out. Data without any row gives no record. Data that
/// the `csv` reader refuses gives `InvalidCsv` with its message.
pub fn parse_records(data: &[u8]) -> (r: Result<Vec<Record>, FileError>)
    ensures
        match r {
            Ok(records) => parsed_records(data@) == Ok::<
                Seq<Seq<Entry<Seq<char>>>>,
                FileErrorView,
            >(entries_of(records@)),
            Err(e) => parsed_records(data@) == Err::<Seq<Seq<Entry<Seq<char>>>>, FileErrorView>(e@),
        },
{
    match csv_parse(data) {
        Err(message) => Err(FileError::InvalidCsv(message)),
        Ok(rows) => Ok(records_from_rows(&rows)),
    }
}

/// The fields of `record` in the order of `header`.
pub fn row_from_record(header: &Vec<String>, record: &Record) -> (row: Vec<String>)
    ensures
        row.deep_view() == row_for(header.deep_view(), record.entries()),
{
    let mut row: Vec<String> = Vec::new();
    let mut i: usize = 0;
    while i < header.len()
        invariant
            i <= header.len(),
            row@.len() == i,
            forall|k: int|
                0 <= k < i ==> (#[trigger] row@[k])@ == row_for(
                    header.deep_view(),
                    record.entries(),
                )[k],
        decreases header.len() - i,
    {
        let field = match record.get(header[i].as_str()) {
            Some(v) => v.clone(),
            None => String::new(),
        };
        assert(header.deep_view()[i as int] == header@[i as int]@);
        row.push(field);
        i = i + 1;
    }
    assert(row.deep_view() =~= row_for(header.deep_view(), record.entries()));
    row
}

/// Writes `records` as comma-separated text.
///
/// The header is the key list of the first record. Each record gives one
/// row in the header's order, with an empty field where it lacks a key.
/// No record gives no text at all. A row that the `csv` writer does not
/// write gives `InvalidCsv` with its message.
pub fn encode_records(records: &Vec<Record>) -> (r: Result<Vec<u8>, FileError>)
    ensures
        match r {
            Ok(bytes) => encoded_records(entries_of(records@)) == Ok::<Seq<u8>, FileErrorView>(
                bytes@,
            ),
            Err(e) => encoded_records(entries_of(records@)) == Err::<Seq<u8>, FileErrorView>(e@),
        },
{
    let mut out: Vec<u8> = Vec::new();
    if records.len() == 0 {
        return Ok(out);
    }
    let ghost table = table_of(entries_of(records@));
    let header = records[0].keys();
    assert(table[0] == header.deep_view());
    assert(table.take(0) =~= Seq::<Seq<Seq<char>>>::empty());
    assert(table.take(1).drop_last() =~= table.take(0));
    assert(table.take(1).last() == table[0]);
    assert(csv_text(table.take(0)) == Ok::<Seq<u8>, Seq<char>>(Seq::empty()));
    match csv_encode_row(&header) {
        Err(message) => {
            proof {
                assert(csv_text(table.take(1)) == Err::<Seq<u8>, Seq<char>>(message@));
                lemma_csv_text_prefix(table, 1);
            }
            return Err(FileError::InvalidCsv(message));
        },
        Ok(mut line) => {
            out.append(&mut line);
        },
    }
    assert(csv_text(table.take(1)) =~= Ok::<Seq<u8>, Seq<char>>(out@));
    let mut i: usize = 0;
    while i < records.len()
        invariant
            i <= records.len(),
            records.len() > 0,
            table == table_of(entries_of(records@)),
            header.deep_view() == keys_of(records@[0].entries()),
            csv_text(table.take(i + 1)) == Ok::<Seq<u8>, Seq<char>>(out@),
        decreases records.len() - i,
    {
        let row = row_from_record(&header, &records[i]);
        assert(table[i + 1] == row.deep_view());
        assert(table.take(i + 2).drop_last() =~= table.take(i + 1));
        assert(table.take(i + 2).last() == table[i + 1]);
        match csv_encode_row(&row) {
            Err(message) => {
                proof {
                    assert(csv_text(table.take(i + 2)) == Err::<Seq<u8>, Seq<char>>(message@));
                    lemma_csv_text_prefix(table, i + 2);
                }
                return Err(FileError::InvalidCsv(message));
            },
            Ok(mut line) => {
                out.append(&mut line);
            },
        }
        assert(csv_text(table.take(i + 2)) =~= Ok::<Seq<u8>, Seq<char>>(out@));
        i = i + 1;
    }
    assert(table.take(i + 1) =~= table);
    Ok(out)
}

} // verus!
