//! URL scheme validation.

use vstd::prelude::*;

use crate::errors::CrateError;

verus! {

/// The prefix of `s` up to (not including) its first `:`, or all of `s`
/// when it holds no `:` at all.
pub open spec fn scheme_of(s: Seq<char>) -> Seq<char>
    decreases s.len(),
{
    if s.len() == 0 {
        Seq::empty()
    } else if s[0] == ':' {
        Seq::empty()
    } else {
        seq![s[0]] + scheme_of(s.drop_first())
    }
}

/// A URL is accepted exactly when it holds a `:` and the prefix before the
/// first `:` is `http` or `https`; a string without any `:` is refused.
pub open spec fn valid_url(s: Seq<char>) -> bool {
    s.contains(':') && (scheme_of(s) == "http"@ || scheme_of(s) == "https"@)
}

/// When the first `j` characters of `s` are free of `:` and position `j`
/// ends the string or holds a `:`, the scheme prefix is exactly `s.take(j)`.
proof fn lemma_scheme_of_take(s: Seq<char>, j: int)
    requires
        0 <= j <= s.len(),
        forall|k: int| 0 <= k < j ==> s[k] != ':',
        j == s.len() || s[j] == ':',
    ensures
        scheme_of(s) == s.take(j),
    decreases j,
{
    if j == 0 {
        assert(scheme_of(s) =~= s.take(0));
    } else {
        lemma_scheme_of_take(s.drop_first(), j - 1);
        assert(seq![s[0]] + s.drop_first().take(j - 1) =~= s.take(j));
    }
}

/// Accepts exactly the strings that hold a `:` whose prefix up to that
/// first `:` is `http` or `https`; every other input — a wrong or
/// differently-cased scheme, or a string with no `:` at all — is refused
/// with `URLFormatError`.
pub fn check_url(url_str: &str) -> (r: Result<(), CrateError>)
    ensures
        r is Ok <==> valid_url(url_str@),
        r is Err ==> r == Err::<(), CrateError>(CrateError::URLFormatError),
{
    let n = url_str.unicode_len();
    let mut i: usize = 0;
    while i < n && url_str.get_char(i) != ':'
        invariant
            n == url_str@.len(),
            0 <= i <= n,
            forall|k: int| 0 <= k < i ==> url_str@[k] != ':',
        decreases n - i,
    {
        i = i + 1;
    }
    if i == n {
        proof {
            assert(!url_str@.contains(':'));
        }
        return Err(CrateError::URLFormatError);
    }
    proof {
        assert(url_str@.contains(':')) by {
            assert(url_str@[i as int] == ':');
        }
        lemma_scheme_of_take(url_str@, i as int);
    }
    let scheme = url_str.substring_char(0, i);
    proof {
        assert(scheme@ =~= url_str@.take(i as int));
    }
    if crate::strings::str_eq(scheme, "http") || crate::strings::str_eq(scheme, "https") {
        Ok(())
    } else {
        Err(CrateError::URLFormatError)
    }
}

} // verus!
