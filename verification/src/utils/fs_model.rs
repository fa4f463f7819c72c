//! A reference file system, and what the file operations do on it.
//!
//! The model is an ideal host: a flat map from path to content on which
//! every primitive succeeds as long as the paths it reads exist. Running
//! an operation against it shows what the operation's script amounts to
//! when nothing goes wrong underneath.

use crate::utils::digest::{checksum_text, is_lower_hex, lemma_checksum_shape, Algorithm};
use crate::utils::file_handler::{FileErrorView, FileMetadata, Timestamp};
use crate::utils::file_task::{
    FileOpView, FileOutputView, FileTaskView, FsReplyView, FsRequestView, StepView,
};
use vstd::prelude::*;
use vstd::utf8::{decode_utf8, encode_utf8, encode_utf8_decode_utf8, encode_utf8_valid_utf8, valid_utf8};

verus! {

/// The files of the model: content by path.
pub type Files = Map<Seq<char>, Seq<u8>>;

/// What the model reports about a file of `size` bytes.
pub open spec fn plain_file(size: nat) -> FileMetadata {
    FileMetadata {
        size: size as u64,
        modified_at: Timestamp { nanos_since_epoch: 0 },
        created_at: None,
        accessed_at: None,
        is_directory: false,
        is_file: true,
        mode: None,
    }
}

/// The model's answer to `request`, and the files afterwards.
pub open spec fn serve(files: Files, request: FsRequestView) -> (Files, FsReplyView) {
    match request {
        FsRequestView::Exists(p) => (files, FsReplyView::Exists(files.contains_key(p))),
        FsRequestView::ReadText(p) => if files.contains_key(p) && valid_utf8(files[p]) {
            (files, FsReplyView::Text(decode_utf8(files[p])))
        } else {
            (files, FsReplyView::Failed("cannot read"@))
        },
        FsRequestView::ReadBytes(p) => if files.contains_key(p) {
            (files, FsReplyView::Bytes(files[p]))
        } else {
            (files, FsReplyView::Failed("cannot read"@))
        },
        FsRequestView::CreateParentDirs(_) => (files, FsReplyView::Done),
        FsRequestView::WriteText(p, text) => (files.insert(p, encode_utf8(text)), FsReplyView::Done),
        FsRequestView::WriteBytes(p, bytes) => (files.insert(p, bytes), FsReplyView::Done),
        FsRequestView::Copy(s, d) => if files.contains_key(s) {
            (files.insert(d, files[s]), FsReplyView::Done)
        } else {
            (files, FsReplyView::Failed("no source"@))
        },
        FsRequestView::Rename(s, d) => if files.contains_key(s) {
            (files.remove(s).insert(d, files[s]), FsReplyView::Done)
        } else {
            (files, FsReplyView::Failed("no source"@))
        },
        FsRequestView::Remove(p) => if files.contains_key(p) {
            (files.remove(p), FsReplyView::Done)
        } else {
            (files, FsReplyView::Failed("no file"@))
        },
        FsRequestView::Metadata(p) => if files.contains_key(p) {
            (files, FsReplyView::Metadata(plain_file(files[p].len())))
        } else {
            (files, FsReplyView::Failed("no file"@))
        },
    }
}

/// Runs `step` against the model for at most `fuel` requests. Gives the
/// files afterwards and the operation's result, if it finished.
pub open spec fn run(step: StepView, files: Files, fuel: nat) -> (
    Files,
    Option<Result<FileOutputView, FileErrorView>>,
)
    decreases fuel,
{
    match step {
        StepView::Finished(result) => (files, Some(result)),
        StepView::Ask(request, task) => if fuel == 0 {
            (files, None)
        } else {
            let (after, reply) = serve(files, request);
            run(task.advance(reply), after, (fuel - 1) as nat)
        },
    }
}

/// Performs `op` on the model from start to finish.
pub open spec fn perform(op: FileOpView, files: Files) -> (
    Files,
    Option<Result<FileOutputView, FileErrorView>>,
) {
    run(FileTaskView::start(op), files, 3)
}

/// Text that was written to a path is read back from it unchanged.
pub proof fn lemma_write_then_read(files: Files, path: Seq<char>, content: Seq<char>)
    ensures
        perform(FileOpView::Write(path, content), files).1 == Some(
            Ok::<FileOutputView, FileErrorView>(FileOutputView::Done),
        ),
        perform(FileOpView::Read(path), perform(FileOpView::Write(path, content), files).0).1
            == Some(Ok::<FileOutputView, FileErrorView>(FileOutputView::Text(content))),
{
    reveal_with_fuel(run, 4);
    encode_utf8_decode_utf8(content);
    encode_utf8_valid_utf8(content);
}

/// An atomic write leaves the text at the path and nothing at the
/// temporary path.
pub proof fn lemma_atomic_write(files: Files, path: Seq<char>, temp: Seq<char>, content: Seq<char>)
    requires
        path != temp,
    ensures
        perform(FileOpView::AtomicWrite(path, temp, content), files) == (
            files.remove(temp).insert(path, encode_utf8(content)),
            Some(Ok::<FileOutputView, FileErrorView>(FileOutputView::Done)),
        ),
{
    reveal_with_fuel(run, 4);
    let written = files.insert(temp, encode_utf8(content));
    assert(written.remove(temp).insert(path, written[temp]) =~= files.remove(temp).insert(
        path,
        encode_utf8(content),
    ));
}

/// Deleting a path that does not exist reports `false`, without an error
/// and without a change. Deleting a path that exists reports `true`, and
/// the path then fails the existence check.
pub proof fn lemma_delete(files: Files, path: Seq<char>)
    ensures
        !files.contains_key(path) ==> perform(FileOpView::Delete(path), files) == (
            files,
            Some(Ok::<FileOutputView, FileErrorView>(FileOutputView::Flag(false))),
        ),
        files.contains_key(path) ==> perform(FileOpView::Delete(path), files) == (
            files.remove(path),
            Some(Ok::<FileOutputView, FileErrorView>(FileOutputView::Flag(true))),
        ),
        perform(FileOpView::Exists(path), perform(FileOpView::Delete(path), files).0).1 == Some(
            Ok::<FileOutputView, FileErrorView>(FileOutputView::Flag(false)),
        ),
{
    reveal_with_fuel(run, 4);
}

/// To ask whether a path exists gives the flag of whether the model holds
/// it, and changes nothing.
pub proof fn lemma_exists(files: Files, path: Seq<char>)
    ensures
        perform(FileOpView::Exists(path), files) == (
            files,
            Some(Ok::<FileOutputView, FileErrorView>(FileOutputView::Flag(files.contains_key(path)))),
        ),
{
    reveal_with_fuel(run, 4);
}

/// Copying or moving a source that does not exist fails with `NotFound`
/// and leaves every file as it was.
pub proof fn lemma_missing_source(files: Files, source: Seq<char>, destination: Seq<char>)
    requires
        !files.contains_key(source),
    ensures
        perform(FileOpView::Copy(source, destination), files) == (
            files,
            Some(Err::<FileOutputView, FileErrorView>(FileErrorView::NotFound(source))),
        ),
        perform(FileOpView::Move(source, destination), files) == (
            files,
            Some(Err::<FileOutputView, FileErrorView>(FileErrorView::NotFound(source))),
        ),
{
    reveal_with_fuel(run, 4);
}

/// A copy puts the source's content at the destination and keeps the
/// source; a move puts it there and removes the source.
pub proof fn lemma_copy_and_move(files: Files, source: Seq<char>, destination: Seq<char>)
    requires
        files.contains_key(source),
    ensures
        perform(FileOpView::Copy(source, destination), files) == (
            files.insert(destination, files[source]),
            Some(Ok::<FileOutputView, FileErrorView>(FileOutputView::Done)),
        ),
        perform(FileOpView::Move(source, destination), files) == (
            files.remove(source).insert(destination, files[source]),
            Some(Ok::<FileOutputView, FileErrorView>(FileOutputView::Done)),
        ),
{
    reveal_with_fuel(run, 4);
}

/// Reading, sizing or describing a path that does not exist fails with
/// `NotFound`.
pub proof fn lemma_missing_path(files: Files, path: Seq<char>, algorithm: Seq<char>)
    requires
        !files.contains_key(path),
    ensures
        perform(FileOpView::Read(path), files).1 == Some(
            Err::<FileOutputView, FileErrorView>(FileErrorView::NotFound(path)),
        ),
        perform(FileOpView::Size(path), files).1 == Some(
            Err::<FileOutputView, FileErrorView>(FileErrorView::NotFound(path)),
        ),
        perform(FileOpView::Stats(path), files).1 == Some(
            Err::<FileOutputView, FileErrorView>(FileErrorView::NotFound(path)),
        ),
        perform(FileOpView::Checksum(path, algorithm), files).1 == Some(
            Err::<FileOutputView, FileErrorView>(FileErrorView::NotFound(path)),
        ),
{
    reveal_with_fuel(run, 4);
}

/// The checksum of a file that exists depends on its content and the
/// algorithm alone: it is the hexadecimal digest of the content, with two
/// lower-case hexadecimal characters per digest byte. A name that selects
/// no algorithm is refused.
pub proof fn lemma_checksum(files: Files, path: Seq<char>, name: Seq<char>)
    requires
        files.contains_key(path),
    ensures
        match Algorithm::named(name) {
            Some(algorithm) => perform(FileOpView::Checksum(path, name), files) == (
                files,
                Some(
                    Ok::<FileOutputView, FileErrorView>(
                        FileOutputView::Text(checksum_text(algorithm, files[path])),
                    ),
                ),
            ),
            None => perform(FileOpView::Checksum(path, name), files) == (
                files,
                Some(Err::<FileOutputView, FileErrorView>(FileErrorView::UnsupportedAlgorithm(name))),
            ),
        },
{
    reveal_with_fuel(run, 4);
}

/// The SHA-256 checksum of a file that exists is sixty-four lower-case
/// hexadecimal characters, the MD5 checksum thirty-two.
pub proof fn lemma_checksum_lengths(files: Files, path: Seq<char>)
    requires
        files.contains_key(path),
    ensures
        perform(FileOpView::Checksum(path, "sha256"@), files).1 matches Some(
            Ok(FileOutputView::Text(text)),
        ) && text.len() == 64 && forall|i: int| 0 <= i < 64 ==> is_lower_hex(#[trigger] text[i]),
        perform(FileOpView::Checksum(path, "md5"@), files).1 matches Some(
            Ok(FileOutputView::Text(text)),
        ) && text.len() == 32 && forall|i: int| 0 <= i < 32 ==> is_lower_hex(#[trigger] text[i]),
{
    reveal_strlit("md5");
    reveal_strlit("sha1");
    reveal_strlit("sha256");
    assert("sha256"@.len() == 6);
    assert("md5"@.len() == 3);
    assert("sha1"@.len() == 4);
    assert(Algorithm::named("sha256"@) == Some(Algorithm::Sha256));
    assert(Algorithm::named("md5"@) == Some(Algorithm::Md5));
    lemma_checksum(files, path, "sha256"@);
    lemma_checksum(files, path, "md5"@);
    lemma_checksum_shape(Algorithm::Sha256, files[path]);
    lemma_checksum_shape(Algorithm::Md5, files[path]);
}

/// Files with the same content have the same checksum, whatever their
/// paths and whatever else the file system holds.
pub proof fn lemma_checksum_same_content(
    first: Files,
    first_path: Seq<char>,
    second: Files,
    second_path: Seq<char>,
    name: Seq<char>,
)
    requires
        first.contains_key(first_path),
        second.contains_key(second_path),
        first[first_path] == second[second_path],
    ensures
        perform(FileOpView::Checksum(first_path, name), first).1 == perform(
            FileOpView::Checksum(second_path, name),
            second,
        ).1,
{
    lemma_checksum(first, first_path, name);
    lemma_checksum(second, second_path, name);
}

} // verus!
