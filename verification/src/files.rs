//! The list of files the application was asked to open.
//!
//! The list is a plain value owned by the caller and passed explicitly;
//! whether a path exists on disk is checked by the surrounding application
//! and handed in as a fact.

use vstd::prelude::*;

use crate::text::{ends_with, str_ends_with};

verus! {

/// The views of the stored paths.
pub open spec fn files_view(files: Seq<String>) -> Seq<Seq<char>> {
    files.map_values(|f: String| f@)
}

/// Records one opened file path.
pub fn add_opened_file(opened_files: &mut Vec<String>, file_path: String)
    ensures
        final(opened_files)@ == old(opened_files)@.push(file_path),
{
    opened_files.push(file_path);
}

/// The stored paths, as a fresh list.
pub fn get_opened_files(opened_files: &Vec<String>) -> (r: Vec<String>)
    ensures
        files_view(r@) == files_view(opened_files@),
{
    let n = opened_files.len();
    let mut out: Vec<String> = Vec::new();
    let mut i: usize = 0;
    while i < n
        invariant
            i <= n,
            n == opened_files@.len(),
            files_view(out@) =~= files_view(opened_files@.take(i as int)),
        decreases n - i,
    {
        out.push(opened_files[i].clone());
        i = i + 1;
        proof {
            assert(files_view(opened_files@.take(i as int)) =~= files_view(
                opened_files@.take(i - 1),
            ).push(opened_files@[i - 1]@));
            assert(files_view(out@) =~= files_view(opened_files@.take(i as int)));
        }
    }
    proof {
        assert(opened_files@.take(n as int) == opened_files@);
    }
    out
}

/// Forgets the stored paths, once they have been processed.
pub fn clear_opened_files(opened_files: &mut Vec<String>)
    ensures
        final(opened_files)@.len() == 0,
{
    opened_files.clear();
}

/// Records a file-open event that arrives while the application runs: the
/// path is kept exactly when it names an existing `.pdf` file. Whether the
/// path exists is checked by the caller and handed in.
pub fn handle_runtime_file_open(
    opened_files: &mut Vec<String>,
    file_path: String,
    file_exists: bool,
)
    ensures
        final(opened_files)@ == if ends_with(file_path@, ".pdf"@) && file_exists {
            old(opened_files)@.push(file_path)
        } else {
            old(opened_files)@
        },
{
    if str_ends_with(file_path.as_str(), ".pdf") && file_exists {
        opened_files.push(file_path);
    }
}

} // verus!
