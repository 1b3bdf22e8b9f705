//! Naming the file that a job's image is staged in.
//!
//! The name carries the time of staging in milliseconds, so that two jobs
//! staged at different instants never share a file.

use vstd::prelude::*;
use vstd::string::StringExecFns;
use crate::decimal::{decimal, lemma_decimal_injective, push_decimal};

verus! {

/// A file written for one job, flushed and closed before anything else may
/// open it.
#[derive(Clone, Debug)]
pub struct StagedFile {
    /// Absolute path of the file.
    pub path: String,
    /// Number of bytes written.
    pub len: usize,
}

/// The name of the file staged at `millis` milliseconds after the epoch,
/// with the extension `ext`.
pub open spec fn staged_name(millis: nat, ext: Seq<char>) -> Seq<char> {
    "ticket_"@ + decimal(millis) + "."@ + ext
}

/// Builds the name of the file to stage a job in.
pub fn staged_file_name(millis: u128, ext: &str) -> (name: String)
    ensures
        name@ == staged_name(millis as nat, ext@),
{
    let mut name = "ticket_".to_owned();
    push_decimal(&mut name, millis);
    name.append(".");
    name.append(ext);
    name
}

/// Files staged at different instants have different names, whatever was
/// staged: nothing is ever overwritten.
pub proof fn lemma_staged_names_distinct(first: nat, second: nat, ext: Seq<char>)
    requires
        first != second,
    ensures
        staged_name(first, ext) != staged_name(second, ext),
{
    let head = "ticket_"@;
    let a = decimal(first);
    let b = decimal(second);
    if staged_name(first, ext) == staged_name(second, ext) {
        assert(staged_name(first, ext).len() == head.len() + a.len() + 1 + ext.len()) by {
            reveal_strlit(".");
        }
        assert(staged_name(second, ext).len() == head.len() + b.len() + 1 + ext.len()) by {
            reveal_strlit(".");
        }
        assert(a =~= staged_name(first, ext).subrange(
            head.len() as int,
            (head.len() + a.len()) as int,
        ));
        assert(b =~= staged_name(second, ext).subrange(
            head.len() as int,
            (head.len() + b.len()) as int,
        ));
        lemma_decimal_injective(first, second);
    }
}

} // verus!
