//! The pure core of the batch downloader: deriving the local output path
//! of a fetched URL, and aggregating per-item outcomes of a batch.

use vstd::prelude::*;

use crate::errors::CrateError;
use crate::strings::concat_str;

verus! {

/// The final path segment of a URL: the characters after its last `/`,
/// or the whole string when it holds no `/` at all.
pub open spec fn file_name_of(url: Seq<char>) -> Seq<char>
    decreases url.len(),
{
    if url.len() == 0 {
        Seq::empty()
    } else if url.last() == '/' {
        Seq::empty()
    } else {
        file_name_of(url.drop_last()).push(url.last())
    }
}

/// When every character from position `j` on is free of `/` and `j` is
/// either the start or just after a `/`, the final segment is `s.skip(j)`.
proof fn lemma_file_name_of_skip(s: Seq<char>, j: int)
    requires
        0 <= j <= s.len(),
        j == 0 || s[j - 1] == '/',
        forall|k: int| j <= k < s.len() ==> s[k] != '/',
    ensures
        file_name_of(s) == s.skip(j),
    decreases s.len(),
{
    if j == s.len() {
        assert(file_name_of(s) =~= s.skip(j));
    } else {
        lemma_file_name_of_skip(s.drop_last(), j);
        assert(s.drop_last().skip(j).push(s.last()) =~= s.skip(j));
    }
}

/// The local path a download of `location` is written to: the output
/// directory followed by the URL's final path segment, verbatim.
pub fn output_path(location: &str, out_dir: &str) -> (r: String)
    ensures
        r@ == out_dir@ + file_name_of(location@),
{
    let n = location.unicode_len();
    let mut j: usize = n;
    while j > 0 && location.get_char(j - 1) != '/'
        invariant
            n == location@.len(),
            0 <= j <= n,
            forall|k: int| j <= k < n ==> location@[k] != '/',
        decreases j,
    {
        j = j - 1;
    }
    proof {
        lemma_file_name_of_skip(location@, j as int);
    }
    let name = location.substring_char(j, n);
    proof {
        assert(name@ =~= location@.skip(j as int));
    }
    concat_str(out_dir, name)
}

/// The errors among a batch's outcomes, in the order the outcomes stand.
pub open spec fn failures_of(results: Seq<Result<(), CrateError>>) -> Seq<CrateError>
    decreases results.len(),
{
    if results.len() == 0 {
        Seq::empty()
    } else {
        let rest = failures_of(results.drop_last());
        match results.last() {
            Ok(()) => rest,
            Err(e) => rest.push(e),
        }
    }
}

/// In a batch where exactly one item failed and every other succeeded,
/// exactly one diagnostic is reported, and it carries that item's error.
pub proof fn lemma_single_failure(results: Seq<Result<(), CrateError>>, j: int)
    requires
        0 <= j < results.len(),
        results[j] is Err,
        forall|k: int| 0 <= k < results.len() && k != j ==> results[k] is Ok,
    ensures
        failures_of(results) == seq![results[j]->Err_0],
    decreases results.len(),
{
    if j == results.len() - 1 {
        lemma_all_ok_no_failures(results.drop_last());
        assert(failures_of(results) =~= seq![results[j]->Err_0]);
    } else {
        lemma_single_failure(results.drop_last(), j);
    }
}

/// A batch whose every item succeeded reports no diagnostic at all.
pub proof fn lemma_all_ok_no_failures(results: Seq<Result<(), CrateError>>)
    requires
        forall|k: int| 0 <= k < results.len() ==> results[k] is Ok,
    ensures
        failures_of(results) == Seq::<CrateError>::empty(),
    decreases results.len(),
{
    if results.len() > 0 {
        lemma_all_ok_no_failures(results.drop_last());
    }
}

/// Collects the failures of a batch, in order: each failed download is
/// reported exactly once, and a success contributes nothing.
pub fn collect_failures(results: &Vec<Result<(), CrateError>>) -> (r: Vec<CrateError>)
    ensures
        r@ == failures_of(results@),
{
    let mut out: Vec<CrateError> = Vec::new();
    let mut i: usize = 0;
    proof {
        assert(out@ =~= failures_of(results@.take(0)));
    }
    while i < results.len()
        invariant
            0 <= i <= results@.len(),
            out@ == failures_of(results@.take(i as int)),
        decreases results@.len() - i,
    {
        match &results[i] {
            Ok(_) => {},
            Err(e) => {
                out.push(e.clone());
            },
        }
        proof {
            assert(results@.take(i + 1).drop_last() =~= results@.take(i as int));
            assert(results@.take(i + 1).last() == results@[i as int]);
        }
        i = i + 1;
    }
    proof {
        assert(results@.take(results@.len() as int) =~= results@);
    }
    out
}

} // verus!
