//! File-system paths as text: joining a file name onto a directory and
//! reading a file's extension.
use vstd::prelude::*;
use crate::text::chars_of;

verus! {

/// The text of `Path::new(dir).join(file)` on Unix: an absolute file name
/// replaces the directory; otherwise the file name follows the directory,
/// separated by `/` unless the directory is empty or already ends in `/`.
pub open spec fn spec_path_join(dir: Seq<char>, file: Seq<char>) -> Seq<char> {
    if file.len() > 0 && file[0] == '/' {
        file
    } else if dir.len() == 0 || dir.last() == '/' {
        dir + file
    } else {
        dir + seq!['/'] + file
    }
}

/// The extension `Path::extension` finds in a path, if any.
pub uninterp spec fn spec_path_extension(path: Seq<char>) -> Option<Seq<char>>;

/// Places a file name inside a directory, as `Path::join` does.
pub fn prepend_string(filename: String, dir: &str) -> (r: String)
    ensures
        r@ == spec_path_join(dir@, filename@),
{
    let f = chars_of(filename.as_str());
    if f.len() > 0 && f[0] == '/' {
        return filename;
    }
    let d = chars_of(dir);
    let mut out = String::from_str(dir);
    if d.len() > 0 && d[d.len() - 1] != '/' {
        out.append("/");
        proof {
            reveal_strlit("/");
        }
    }
    out.append(filename.as_str());
    out
}

/// The extension of the last component of a path (`Path::extension`).
#[verifier::external_body]
pub fn path_extension(path: &str) -> (r: Option<String>)
    ensures
        match (r, spec_path_extension(path@)) {
            (Some(e), Some(x)) => e@ == x,
            (None, None) => true,
            _ => false,
        },
{
    std::path::Path::new(path).extension().map(|e| e.to_string_lossy().into_owned())
}

} // verus!
