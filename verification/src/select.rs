//! Resolving the user's selection and preparing the external tools'
//! arguments.
//!
//! The selection is a 1-based index into the candidate list; anything out of
//! range is rejected before any external tool is invoked. The chosen link
//! has every literal quote character removed before it is handed to the
//! downloader, so the shell never sees an embedded quote.

use vstd::prelude::*;
use vstd::string::StrSliceExecFns;
use vstd::string::StringExecFns;
use crate::candidate::Candidate;

verus! {

/// Checks a 1-based selection against the number of candidates: `Some` of
/// the 0-based index exactly when the selection is between 1 and the count.
pub fn validate_selection(num_candidates: usize, choice: u32) -> (r: Option<usize>)
    ensures
        r == if 1 <= choice && choice as int <= num_candidates as int {
            Some((choice - 1) as usize)
        } else {
            None::<usize>
        },
{
    if 1 <= choice && choice as u64 <= num_candidates as u64 {
        Some((choice - 1) as usize)
    } else {
        None
    }
}

/// Resolves a 1-based selection to the chosen candidate's link: `Some`
/// exactly when the selection is in range, `None` otherwise, with nothing
/// else inspected or invoked.
pub fn selected_link(candidates: &Vec<Candidate>, choice: u32) -> (r: Option<String>)
    ensures
        r == if 1 <= choice && choice as int <= candidates@.len() {
            Some(candidates@[choice as int - 1].link)
        } else {
            None::<String>
        },
{
    match validate_selection(candidates.len(), choice) {
        Some(idx) => Some(candidates[idx].link.clone()),
        None => None,
    }
}

/// A link with every literal `"` character removed.
pub open spec fn spec_strip_quotes(s: Seq<char>) -> Seq<char>
    decreases s.len(),
{
    if s.len() == 0 {
        Seq::empty()
    } else {
        let front = spec_strip_quotes(s.drop_last());
        if s.last() == '"' {
            front
        } else {
            front.push(s.last())
        }
    }
}

/// Removes every literal quote character from a link, which would otherwise
/// be interpreted by the shell the downloader is invoked through.
pub fn strip_quotes(link: &str) -> (r: String)
    ensures
        r@ == spec_strip_quotes(link@),
{
    let n: usize = link.unicode_len();
    let mut out: Vec<char> = Vec::new();
    let mut i: usize = 0;
    while i < n
        invariant
            n == link@.len(),
            i <= n,
            out@ == spec_strip_quotes(link@.take(i as int)),
        decreases n - i,
    {
        let c = link.get_char(i);
        proof {
            assert(link@.take(i as int + 1).drop_last() =~= link@.take(i as int));
            assert(link@.take(i as int + 1).last() == link@[i as int]);
        }
        if c != '"' {
            out.push(c);
        }
        i = i + 1;
    }
    proof {
        assert(link@.take(n as int) =~= link@);
    }
    crate::chars_to_string(&out)
}

/// Builds the argument list for the external downloader: the chosen link
/// with every quote character removed, a format selector requesting a
/// combined MP4 stream, and the fixed output file name.
pub fn downloader_args(link: &str) -> (args: Vec<String>)
    ensures
        args@.len() == 5,
        args@[0]@ == spec_strip_quotes(link@),
        args@[1]@ == "-f"@,
        args@[2]@ == "best[ext=mp4]"@,
        args@[3]@ == "-o"@,
        args@[4]@ == "current.mp4"@,
{
    let mut args: Vec<String> = Vec::new();
    args.push(strip_quotes(link));
    args.push(String::from_str("-f"));
    args.push(String::from_str("best[ext=mp4]"));
    args.push(String::from_str("-o"));
    args.push(String::from_str("current.mp4"));
    args
}

/// Builds the argument list for the external media converter: read the
/// fixed downloaded file and write an audio file named after the
/// user-supplied base name.
pub fn converter_args(base_name: &str) -> (args: Vec<String>)
    ensures
        args@.len() == 3,
        args@[0]@ == "-i"@,
        args@[1]@ == "current.mp4"@,
        args@[2]@ == base_name@ + ".mp3"@,
{
    let mut args: Vec<String> = Vec::new();
    args.push(String::from_str("-i"));
    args.push(String::from_str("current.mp4"));
    args.push(String::from_str(base_name).concat(".mp3"));
    args
}

} // verus!
