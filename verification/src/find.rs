//! The file finder's acceptance rules: which walked paths enter the entry
//! set.  The host walks the tree and asks about each file; hidden
//! repository and build directories are skipped, and an extension filter,
//! when given, must name the file's extension, case-insensitively.

use vstd::prelude::*;

use crate::image_preview::{extension_of, extension_spec};
use crate::text::{chars_of, contains_chars, contains_seq, lower_chars, lower_of, vec_chars_eq};

verus! {

/// The path runs through a directory the finder never lists: version
/// control, package and build output, editor state.
pub open spec fn in_skipped_dir(p: Seq<char>) -> bool {
    ||| contains_seq(p, "/.git/"@)
    ||| contains_seq(p, "/node_modules/"@)
    ||| contains_seq(p, "/target/"@)
    ||| contains_seq(p, "/.vscode/"@)
}

/// The extension filter accepts the path: no filter accepts everything; a
/// filter accepts exactly the files whose lower-cased extension it lists.
pub open spec fn ext_accepted(p: Seq<char>, filters: Option<Vec<String>>) -> bool {
    match filters {
        None => true,
        Some(fs) => match extension_spec(p) {
            Some(e) => exists|i: int| 0 <= i < fs@.len() && lower_of(e) == (#[trigger] fs@[i])@,
            None => false,
        },
    }
}

/// Whether `low` stands in the list, letter for letter.
fn chars_in_list(low: &Vec<char>, fs: &Vec<String>) -> (r: bool)
    ensures
        r == exists|i: int| 0 <= i < fs@.len() && low@ == (#[trigger] fs@[i])@,
{
    let mut i: usize = 0;
    while i < fs.len()
        invariant
            i <= fs@.len(),
            forall|k: int| 0 <= k < i ==> low@ != (#[trigger] fs@[k])@,
        decreases fs@.len() - i,
    {
        let fv = chars_of(fs[i].as_str());
        if vec_chars_eq(low, &fv) {
            proof {
                assert(low@ == (#[trigger] fs@[i as int])@);
            }
            return true;
        }
        i += 1;
    }
    false
}

/// Whether the finder lists the file at `path`, under an optional
/// extension filter whose entries are already lower-cased.
pub fn accept_file_path(path: &str, filters: &Option<Vec<String>>) -> (r: bool)
    ensures
        r == (ext_accepted(path@, *filters) && !in_skipped_dir(path@)),
{
    let by_ext: bool = match filters.as_ref() {
        None => true,
        Some(fs) => {
            match extension_of(path) {
                Some(e) => {
                    let low = lower_chars(e.as_str());
                    chars_in_list(&low, fs)
                },
                None => false,
            }
        },
    };
    if !by_ext {
        return false;
    }
    let v = chars_of(path);
    let a = chars_of("/.git/");
    let b = chars_of("/node_modules/");
    let c = chars_of("/target/");
    let d = chars_of("/.vscode/");
    !(contains_chars(&v, &a) || contains_chars(&v, &b) || contains_chars(&v, &c) || contains_chars(
        &v,
        &d,
    ))
}

} // verus!
