//! The preview dispatcher.
//!
//! Given the selected entry, the engine decides how to preview it —
//! directory listing, ASCII image rendering, or text — and turns whatever
//! the host could read into a bounded `Preview`.  Every branch completes in
//! bounded time and no failure escapes as a crash: unreadable files degrade
//! to a summary, missing files to an error preview that names the path.

use vstd::prelude::*;

use vstd::string::StringExecFns;

use crate::image_preview::is_image_file;
use crate::image_preview::is_image_path;
use crate::text::chars_of;
use crate::text::dec_str;
use crate::text::lines_of;
use crate::text::split_lines;
use crate::text::u64_to_string;

verus! {

/// One immediate child of a previewed directory.
pub struct DirChild {
    pub name: String,
    pub is_directory: bool,
}

impl DirChild {
    fn duplicate(&self) -> (r: DirChild)
        ensures
            r == *self,
    {
        DirChild { name: self.name.clone(), is_directory: self.is_directory }
    }
}

/// A bounded preview of one entry, always derivable in bounded time.
pub enum Preview {
    /// Readable text: at most the first fifty lines.
    Text { lines: Vec<String>, truncated: bool },
    /// An unreadable file: its size, its rendered modification time, and an
    /// explanatory note.
    BinaryInfo { size: u64, modified: Option<String>, note: String },
    /// A directory: at most its first twenty immediate children.
    Directory { entries: Vec<DirChild>, truncated: bool },
    /// An image, rendered as bounded character art with its facts.
    Image { text: String },
    /// Nothing could be previewed: a human-readable message.
    Error { message: String },
}

/// How a preview for the entry is to be produced.
#[derive(PartialEq, Eq, Structural, Debug, Clone, Copy)]
pub enum PreviewRoute {
    /// List the directory's immediate children.
    Directory,
    /// Decode and render the image file.
    Image,
    /// Read the file as text.
    Text,
}

/// The dispatch precedence: directories are listed, then supported image
/// extensions are rendered, and everything else is read as text.
pub open spec fn route_spec(path: Seq<char>, is_directory: bool) -> PreviewRoute {
    if is_directory {
        PreviewRoute::Directory
    } else if is_image_path(path) {
        PreviewRoute::Image
    } else {
        PreviewRoute::Text
    }
}

/// Decide how the entry at `path` is to be previewed.
pub fn preview_route(path: &str, is_directory: bool) -> (r: PreviewRoute)
    ensures
        r == route_spec(path@, is_directory),
{
    if is_directory {
        PreviewRoute::Directory
    } else if is_image_file(path) {
        PreviewRoute::Image
    } else {
        PreviewRoute::Text
    }
}

/// What the host found when it tried to read a file as text.
pub enum FileReadOutcome {
    /// The whole file, read as text.
    Content(String),
    /// The read failed but the file's metadata could be had: binary
    /// content or an encoding error.
    Unreadable { size: u64, modified: Option<String> },
    /// Neither contents nor metadata could be had.
    Missing,
}

/// Preview of a directory from its listed children, or from the failure to
/// list them.  At most twenty children are kept; permission failures
/// become an error preview of their own.
pub fn directory_preview(listing: Option<Vec<DirChild>>) -> (r: Preview)
    ensures
        listing matches Some(children) ==> (r matches Preview::Directory { entries, truncated }
            && entries@ == (if children@.len() > 20 {
            children@.subrange(0, 20)
        } else {
            children@
        }) && truncated == (children@.len() > 20)),
        listing is None ==> (r matches Preview::Error { message } && message@
            == "[Permission denied]"@),
{
    match listing {
        Some(mut children) => {
            let truncated = children.len() > 20;
            children.truncate(20);
            Preview::Directory { entries: children, truncated }
        },
        None => Preview::Error { message: "[Permission denied]".to_owned() },
    }
}

/// The note an unreadable file's preview carries.
pub open spec fn binary_note_spec(path: Seq<char>, size: int, modified: Option<String>) -> Seq<
    char,
> {
    "File: "@ + path + "\nSize: "@ + dec_str(size) + " bytes\nModified: "@ + (match modified {
        Some(m) => m@,
        None => "None"@,
    }) + "\n\n[Binary file or read error]"@
}

fn binary_preview(path: &str, size: u64, modified: Option<String>) -> (r: Preview)
    ensures
        r matches Preview::BinaryInfo { size: s, modified: m, note } && s == size && m == modified
            && note@ == binary_note_spec(path@, size as int, modified),
{
    let mut note = String::new();
    note.append("File: ");
    note.append(path);
    note.append("\nSize: ");
    note.append(u64_to_string(size).as_str());
    note.append(" bytes\nModified: ");
    match &modified {
        Some(m) => note.append(m.as_str()),
        None => note.append("None"),
    }
    note.append("\n\n[Binary file or read error]");
    proof {
        assert(note@ =~= binary_note_spec(path@, size as int, modified));
    }
    Preview::BinaryInfo { size, modified, note }
}

/// Preview of a readable text file: only the first fifty lines are kept,
/// and the preview says when the file held more.
pub fn text_preview(content: &str) -> (r: Preview)
    ensures
        ({
            let ls = lines_of(content@);
            r matches Preview::Text { lines, truncated } && lines@.map_values(|s: String| s@) == (
            if ls.len() > 50 {
                ls.subrange(0, 50)
            } else {
                ls
            }) && truncated == (ls.len() > 50)
        }),
{
    let v = chars_of(content);
    let mut lines = split_lines(&v);
    let truncated = lines.len() > 50;
    let ghost before = lines@;
    lines.truncate(50);
    proof {
        let ls = lines_of(content@);
        if before.len() > 50 {
            assert(lines@.map_values(|s: String| s@) =~= ls.subrange(0, 50));
        } else {
            assert(lines@.map_values(|s: String| s@) =~= ls);
        }
    }
    Preview::Text { lines, truncated }
}

/// Preview for the text route, from whatever the read produced: the
/// truncated text, a summary of an unreadable file, or an error naming the
/// path that could not be read at all.
pub fn file_preview(path: &str, outcome: FileReadOutcome) -> (r: Preview)
    ensures
        outcome matches FileReadOutcome::Content(c) ==> (r matches Preview::Text {
            lines,
            truncated,
        } && lines@.map_values(|s: String| s@) == (if lines_of(c@).len() > 50 {
            lines_of(c@).subrange(0, 50)
        } else {
            lines_of(c@)
        }) && truncated == (lines_of(c@).len() > 50)),
        outcome matches FileReadOutcome::Unreadable { size, modified } ==> (r
            matches Preview::BinaryInfo { size: s, modified: m, note } && s == size && m
            == modified && note@ == binary_note_spec(path@, size as int, modified)),
        outcome is Missing ==> (r matches Preview::Error { message } && message@
            == "Could not read file: "@ + path@),
{
    match outcome {
        FileReadOutcome::Content(c) => text_preview(c.as_str()),
        FileReadOutcome::Unreadable { size, modified } => binary_preview(path, size, modified),
        FileReadOutcome::Missing => {
            let mut message = String::new();
            message.append("Could not read file: ");
            message.append(path);
            Preview::Error { message }
        },
    }
}

/// The preview of a missing path is an error that names the path.
pub proof fn lemma_missing_path_named(path: Seq<char>, message: Seq<char>)
    requires
        message == "Could not read file: "@ + path,
    ensures
        crate::text::contains_seq(message, path),
{
    crate::text::lemma_concat_contains("Could not read file: "@, path, Seq::<char>::empty());
    assert("Could not read file: "@ + path + Seq::<char>::empty() =~= message);
}

} // verus!
