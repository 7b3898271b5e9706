//! The dictionary: a line-oriented resource whose header — everything up to
//! and including the sentinel line `---` — is discarded, the remaining lines
//! being the candidate words.

use vstd::prelude::*;
use vstd::string::StringExecFns;

verus! {

/// The sentinel line that ends the header.
pub open spec fn is_sentinel(line: Seq<char>) -> bool {
    line == "---"@
}

/// Index of the first sentinel line, if any.
fn find_sentinel(lines: &Vec<String>) -> (r: Option<usize>)
    ensures
        match r {
            Some(k) => k < lines.deep_view().len() && is_sentinel(lines.deep_view()[k as int])
                && forall|i: int| 0 <= i < k ==> !is_sentinel(lines.deep_view()[i]),
            None => forall|i: int|
                0 <= i < lines.deep_view().len() ==> !is_sentinel(lines.deep_view()[i]),
        },
{
    let sentinel: String = String::from_str("---");
    let n = lines.len();
    let mut k: usize = 0;
    while k < n
        invariant
            n == lines.deep_view().len(),
            k <= n,
            sentinel@ == "---"@,
            forall|i: int| 0 <= i < k ==> !is_sentinel(lines.deep_view()[i]),
        decreases n - k,
    {
        if lines[k].eq(&sentinel) {
            return Some(k);
        }
        k = k + 1;
    }
    None
}

/// Split the lines of the dictionary resource into its words: every line up
/// to and including the first sentinel is dropped, the lines after it are
/// returned. `None` when no sentinel line is present — a fatal startup
/// condition for the surrounding program.
pub fn parse_dictionary(lines: &Vec<String>) -> (r: Option<Vec<String>>)
    ensures
        ({
            let ls = lines.deep_view();
            match r {
                Some(words) => exists|k: int|
                    0 <= k < ls.len() && is_sentinel(ls[k]) && (forall|i: int|
                        0 <= i < k ==> !is_sentinel(ls[i])) && words.deep_view() == ls.subrange(
                        k + 1,
                        ls.len() as int,
                    ),
                None => forall|i: int| 0 <= i < ls.len() ==> !is_sentinel(ls[i]),
            }
        }),
{
    let k = match find_sentinel(lines) {
        Some(k) => k,
        None => {
            return None;
        },
    };
    let n = lines.len();
    let mut words: Vec<String> = Vec::new();
    let mut j: usize = k + 1;
    while j < n
        invariant
            n == lines.deep_view().len(),
            k < n,
            k + 1 <= j <= n,
            words.deep_view() == lines.deep_view().subrange(k + 1, j as int),
        decreases n - j,
    {
        let line = lines[j].clone();
        let ghost pre = words.deep_view();
        words.push(line);
        proof {
            assert(line@ == lines.deep_view()[j as int]);
            assert(words.deep_view() =~= pre.push(line@));
            assert(pre.push(line@) =~= lines.deep_view().subrange(k + 1, j + 1));
        }
        j = j + 1;
    }
    proof {
        let ls = lines.deep_view();
        assert(words.deep_view() =~= ls.subrange(k + 1, ls.len() as int));
        assert(0 <= k < ls.len() && is_sentinel(ls[k as int]) && (forall|i: int|
            0 <= i < k ==> !is_sentinel(ls[i])) && words.deep_view() == ls.subrange(
            k + 1,
            ls.len() as int,
        ));
    }
    Some(words)
}

} // verus!
