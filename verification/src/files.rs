//! The names under which uploads and transcripts are saved. The caller
//! reads the clock, looks at the disk and writes the files.

use crate::text::{decimal_digits, push_decimal};
use vstd::prelude::*;
use vstd::string::*;

verus! {

/// The name of the temporary copy of an upload: the time it came in, in
/// seconds, then the name it came with.
pub open spec fn temp_file_name_text(seconds: u64, name: Seq<char>) -> Seq<char> {
    decimal_digits(seconds as nat) + "_"@ + name
}

/// The name of the temporary copy of an upload.
pub fn temp_file_name(seconds: u64, name: &str) -> (r: String)
    ensures
        r@ == temp_file_name_text(seconds, name@),
{
    let mut out = String::new();
    push_decimal(&mut out, seconds);
    out.append("_");
    out.append(name);
    assert(out@ =~= temp_file_name_text(seconds, name@));
    out
}

/// The name that a transcript is offered under: the stem of the recording's
/// name with the extension of a text file.
pub open spec fn transcript_name_text(stem: Seq<char>) -> Seq<char> {
    stem + ".txt"@
}

/// The name that a transcript is offered under.
pub fn transcript_name(stem: &str) -> (r: String)
    ensures
        r@ == transcript_name_text(stem@),
{
    String::from_str(stem).concat(".txt")
}

/// The `attempt`-th name to try for a transcript whose own name is taken:
/// the stem, an underscore, the attempt's number, and the extension of a
/// text file.
pub open spec fn numbered_name_text(stem: Seq<char>, attempt: u64) -> Seq<char> {
    stem + "_"@ + decimal_digits(attempt as nat) + ".txt"@
}

/// The `attempt`-th name to try for a transcript whose own name is taken.
pub fn numbered_name(stem: &str, attempt: u64) -> (r: String)
    ensures
        r@ == numbered_name_text(stem@, attempt),
{
    let mut out = String::from_str(stem);
    out.append("_");
    push_decimal(&mut out, attempt);
    out.append(".txt");
    out
}

/// The name to try after `taken` names were found taken: the file's own
/// name first, then the numbered names from 1 on.
pub open spec fn candidate_name_text(name: Seq<char>, stem: Seq<char>, taken: u64) -> Seq<char> {
    if taken == 0 {
        name
    } else {
        numbered_name_text(stem, taken)
    }
}

/// The name to try after `taken` names were found taken.
pub fn candidate_name(name: &str, stem: &str, taken: u64) -> (r: String)
    ensures
        r@ == candidate_name_text(name@, stem@, taken),
{
    if taken == 0 {
        String::from_str(name)
    } else {
        numbered_name(stem, taken)
    }
}

/// What the user is told when a transcript went to the downloads folder.
pub open spec fn saved_notice_text(place: Seq<char>) -> Seq<char> {
    "Downloads フォルダに保存: "@ + place
}

/// What the user is told when a transcript went to the downloads folder.
pub fn saved_notice(place: &str) -> (r: String)
    ensures
        r@ == saved_notice_text(place@),
{
    String::from_str("Downloads フォルダに保存: ").concat(place)
}

} // verus!
