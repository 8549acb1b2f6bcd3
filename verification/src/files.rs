//! What the assembler knows of a file that travels with a message. The
//! library reads no file itself: the caller reads and hands in the bytes,
//! or `None` where the file could not be read.
//!
//! The content type of a file is guessed from the extension of its path,
//! and is the generic binary type where the path has no extension or the
//! extension is not known.

use vstd::prelude::*;
use vstd::string::*;
use crate::text::has_substring;

verus! {

/// A file as found at a path: the last component of the path, the content
/// type guessed from its extension, and its bytes if it could be read.
#[derive(Debug)]
pub struct LoadedFile {
    pub file_name: Option<String>,
    pub content_type: String,
    pub contents: Option<Vec<u8>>,
}

/// A loaded file as sequences.
pub struct FileView {
    pub file_name: Option<Seq<char>>,
    pub content_type: Seq<char>,
    pub contents: Option<Seq<u8>>,
}

impl View for LoadedFile {
    type V = FileView;

    open spec fn view(&self) -> FileView {
        FileView {
            file_name: match self.file_name {
                Some(name) => Some(name@),
                None => None,
            },
            content_type: self.content_type@,
            contents: match self.contents {
                Some(bytes) => Some(bytes@),
                None => None,
            },
        }
    }
}

/// The views of a list of files.
pub open spec fn file_views(files: Seq<LoadedFile>) -> Seq<FileView> {
    files.map_values(|file: LoadedFile| file@)
}

/// The view of a byte string that may be missing.
pub open spec fn content_view(bytes: Option<Vec<u8>>) -> Option<Seq<u8>> {
    match bytes {
        Some(bytes) => Some(bytes@),
        None => None,
    }
}

/// The views of a list of byte strings that may be missing.
pub open spec fn content_views(contents: Seq<Option<Vec<u8>>>) -> Seq<Option<Seq<u8>>> {
    contents.map_values(|bytes: Option<Vec<u8>>| content_view(bytes))
}

/// The generic binary type: the content type of a file whose type is not
/// known.
pub const OCTET_STREAM: &'static str = "application/octet-stream";

/// The media type that is guessed for a file name extension: the first
/// one that the table of known extensions has for it, letter case
/// ignored, and the generic binary type where the table has none.
pub uninterp spec fn media_type_of(extension: Seq<char>) -> Seq<char>;

/// The content type that is guessed for a path with this extension, or
/// with none.
pub open spec fn content_type_for(extension: Option<Seq<char>>) -> Seq<char> {
    match extension {
        Some(extension) => media_type_of(extension),
        None => OCTET_STREAM@,
    }
}

/// Whether `content_type` is guessed from `path`: it is the content type
/// for some extension that stands in the path behind a dot, or for none.
pub open spec fn is_guessed_from(path: Seq<char>, content_type: Seq<char>) -> bool {
    exists|extension: Option<Seq<char>>|
        (extension matches Some(e) ==> has_substring(path, seq!['.'] + e)) && content_type
            == #[trigger] content_type_for(extension)
}

/// Whether `path` is the plain name of a file on every platform: it is
/// not empty, holds no separator and no colon, and is neither `.` nor
/// `..`.
pub open spec fn is_plain_name(path: Seq<char>) -> bool {
    &&& path.len() > 0
    &&& !path.contains('/')
    &&& !path.contains('\\')
    &&& !path.contains(':')
    &&& path != seq!['.']
    &&& path != seq!['.', '.']
}

/// The place of the last dot of `name`, and -1 where it has none.
pub open spec fn last_dot(name: Seq<char>) -> int
    decreases name.len(),
{
    if name.len() == 0 {
        -1
    } else if name.last() == '.' {
        name.len() - 1
    } else {
        last_dot(name.drop_last())
    }
}

/// The extension of a file name: what follows its last dot, and none
/// where it has no dot or its only dot is its first character.
pub open spec fn extension_in(name: Seq<char>) -> Option<Seq<char>> {
    if last_dot(name) <= 0 {
        None
    } else {
        Some(name.subrange(last_dot(name) + 1, name.len() as int))
    }
}

impl FileView {
    /// Whether the file is described as one at `path` with these contents:
    /// it holds the contents, its content type is guessed from the path
    /// and is not empty, and its name, if it has one, stands in the path.
    /// For a path that is a plain name, the name is the path and the
    /// content type is the one for the extension of the name.
    pub open spec fn describes(self, path: Seq<char>, contents: Option<Seq<u8>>) -> bool {
        &&& self.contents == contents
        &&& is_guessed_from(path, self.content_type)
        &&& self.content_type.len() > 0
        &&& self.file_name matches Some(name) ==> has_substring(path, name)
        &&& is_plain_name(path) ==> self.file_name == Some(path) && self.content_type
            == content_type_for(extension_in(path))
    }
}

/// Whether `files` describe the files at `paths`: as many, and the i-th
/// with `contents[i]`, or unread where `contents` has no i-th entry.
pub open spec fn files_hold(
    files: Seq<FileView>,
    paths: Seq<Seq<char>>,
    contents: Seq<Option<Seq<u8>>>,
) -> bool {
    &&& files.len() == paths.len()
    &&& forall|i: int|
        0 <= i < files.len() ==> (#[trigger] files[i]).describes(
            paths[i],
            if i < contents.len() {
                contents[i]
            } else {
                None
            },
        )
}

/// `mime_guess::from_ext(extension).first_or_octet_stream()`, as text: a
/// look into the crate's table of extensions. Not proved: that the type is
/// a function of the extension, and that it is never empty.
#[verifier::external_body]
fn media_type(extension: &str) -> (content_type: String)
    ensures
        content_type@ == media_type_of(extension@),
        content_type@.len() > 0,
{
    mime_guess::from_ext(extension).first_or_octet_stream().as_ref().to_string()
}

/// `std::path::Path::extension`, as text: what follows the last dot of the
/// last component of the path, if that component has a dot that is not
/// its first character. Which component is the last depends on how the
/// platform splits paths, so the extension gets no name. Not proved: that
/// the extension stands in the path behind a dot, and that a path which
/// is a plain name is its own last component on every platform.
#[verifier::external_body]
fn extension_of(path: &str) -> (extension: Option<String>)
    ensures
        extension matches Some(e) ==> has_substring(path@, seq!['.'] + e@),
        is_plain_name(path@) ==> text_view(extension) == extension_in(path@),
{
    std::path::Path::new(path).extension().and_then(|e| e.to_str()).map(|e| e.to_string())
}

/// `std::path::Path::file_name`, as text: the last component of the path,
/// if it has one. Which part that is depends on how the platform splits
/// paths, so the name of the file gets no name here. Not proved: that it
/// stands in the path, and that a path which is a plain name is its own
/// last component on every platform.
#[verifier::external_body]
fn file_name_of(path: &str) -> (name: Option<String>)
    ensures
        name matches Some(n) ==> has_substring(path@, n@),
        is_plain_name(path@) ==> text_view(name) == Some(path@),
{
    std::path::Path::new(path).file_name().map(|name| name.to_string_lossy().into_owned())
}

/// Guesses the content type of a file from the extension of its path: the
/// type that the extension is known for, and the generic binary type for a
/// path without extension.
pub fn guess_content_type(extension: Option<&str>) -> (content_type: String)
    ensures
        content_type@ == content_type_for(
            match extension {
                Some(e) => Some(e@),
                None => None,
            },
        ),
        content_type@.len() > 0,
{
    match extension {
        Some(extension) => media_type(extension),
        None => {
            proof {
                reveal_strlit("application/octet-stream");
            }
            String::from_str(OCTET_STREAM)
        },
    }
}

/// The view of a text that may be missing.
pub open spec fn text_view(text: Option<String>) -> Option<Seq<char>> {
    match text {
        Some(text) => Some(text@),
        None => None,
    }
}

/// Describes a file whose name and extension have been found: the name
/// and the contents are handed on as they are, and the content type is
/// the one for the extension.
pub fn file_with(file_name: Option<String>, extension: Option<String>, contents: Option<Vec<u8>>) -> (file:
    LoadedFile)
    ensures
        file.file_name == file_name,
        file.contents == contents,
        file.content_type@ == content_type_for(text_view(extension)),
        file.content_type@.len() > 0,
{
    let content_type = match &extension {
        Some(extension) => guess_content_type(Some(extension.as_str())),
        None => guess_content_type(None),
    };
    LoadedFile { file_name, content_type, contents }
}

/// Describes the file at `path`, whose bytes the caller has read, or has
/// failed to read. The contents are handed on as they are; name and
/// content type are found from the path.
pub fn describe_file(path: &str, contents: Option<Vec<u8>>) -> (file: LoadedFile)
    ensures
        file@.describes(path@, content_view(contents)),
{
    let extension = extension_of(path);
    let file_name = file_name_of(path);
    let file = file_with(file_name, extension, contents);
    assert(file.content_type@ == content_type_for(text_view(extension)));
    file
}

/// Describes the files at `paths`, the i-th with `contents[i]`. A path
/// without an entry in `contents` counts as unreadable, and contents
/// without a path are dropped.
pub fn describe_files(paths: &Vec<String>, contents: Vec<Option<Vec<u8>>>) -> (files: Vec<
    LoadedFile,
>)
    ensures
        files_hold(file_views(files@), crate::text::texts(paths@), content_views(contents@)),
{
    let mut files: Vec<LoadedFile> = Vec::new();
    let ghost given = content_views(contents@);
    for bytes in it: contents
        invariant
            given == content_views(it.seq()),
            files@.len() == if it.index() <= paths@.len() {
                it.index() as int
            } else {
                paths@.len() as int
            },
            forall|i: int|
                0 <= i < files@.len() ==> (#[trigger] files@[i])@.describes(paths@[i]@, given[i]),
    {
        if files.len() < paths.len() {
            let file = describe_file(paths[files.len()].as_str(), bytes);
            files.push(file);
        }
    }
    while files.len() < paths.len()
        invariant
            files@.len() <= paths@.len(),
            given.len() <= files@.len() || files@.len() == paths@.len(),
            forall|i: int|
                0 <= i < files@.len() ==> (#[trigger] files@[i])@.describes(
                    paths@[i]@,
                    if i < given.len() {
                        given[i]
                    } else {
                        None
                    },
                ),
        decreases paths.len() - files.len(),
    {
        let file = describe_file(paths[files.len()].as_str(), None);
        files.push(file);
    }
    proof {
        let views = file_views(files@);
        let names = crate::text::texts(paths@);
        assert forall|i: int| 0 <= i < views.len() implies (#[trigger] views[i]).describes(
            names[i],
            if i < given.len() {
                given[i]
            } else {
                None
            },
        ) by {
            assert(views[i] == files@[i]@);
            assert(names[i] == paths@[i]@);
        }
    }
    files
}

} // verus!
