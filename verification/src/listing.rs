//! The text of the `dir` builtin's listing: a header and one tagged
//! line per entry, with entries that are neither directories nor plain
//! files silently skipped.

use vstd::prelude::*;
use vstd::string::StringExecFns;

verus! {

/// The header line above a directory listing.
pub fn dir_header() -> (r: String)
    ensures
        r@ == "TYPE                NAME"@,
{
    String::from_str("TYPE                NAME")
}

/// The listing line for one directory entry, given what the driver
/// learned of its file type: directories and plain files are tagged,
/// anything else (a symlink, a device) yields no line.
pub fn dir_entry_line(is_dir: bool, is_file: bool, path: &str) -> (r: Option<String>)
    ensures
        is_dir ==> (r matches Some(line) && line@ == "directory               "@ + path@),
        !is_dir && is_file ==> (r matches Some(line) && line@ == "file                    "@
            + path@),
        !is_dir && !is_file ==> r is None,
{
    if is_dir {
        let mut line = String::from_str("directory               ");
        line.append(path);
        Some(line)
    } else if is_file {
        let mut line = String::from_str("file                    ");
        line.append(path);
        Some(line)
    } else {
        None
    }
}

} // verus!
