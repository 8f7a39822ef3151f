//! Link extraction: reading the anchors of an HTML page and keeping the
//! hrefs that match a file-type filter, resolved against the base URL.

use vstd::prelude::*;

use crate::filetype::{suffix_spec, FileType};
use crate::strings::{concat_str, contains_char, ends_with_str};

verus! {

/// The `href` attribute of each anchor element of the page, in document
/// order; `None` where an anchor carries no `href` attribute at all.
pub uninterp spec fn anchor_hrefs(html: Seq<char>) -> Seq<Option<Seq<char>>>;

/// Relies on nipper's HTML parser: `Document::from`, the `a` selection and
/// `attr("href")` compute the anchors' hrefs from the page text alone, in
/// document order.
#[verifier::external_body]
fn anchor_hrefs_of(html: &str) -> (r: Vec<Option<String>>)
    ensures
        r.deep_view() == anchor_hrefs(html@),
{
    let document = nipper::Document::from(html);
    document.select("a").iter().map(|elem| elem.attr("href").map(|a| a.to_string())).collect()
}

/// A missing `href` attribute is read as the empty string.
pub open spec fn href_of(x: Option<Seq<char>>) -> Seq<char> {
    match x {
        Some(h) => h,
        None => Seq::empty(),
    }
}

/// The filter predicate: `All` keeps any href holding a `.`; a named type
/// keeps the hrefs that end with its literal suffix.
pub open spec fn href_matches(h: Seq<char>, ftype: FileType) -> bool {
    if ftype == FileType::All {
        h.contains('.')
    } else {
        suffix_spec(ftype).is_suffix_of(h)
    }
}

/// The links extraction produces: the matching hrefs in document order,
/// each resolved by concatenating the base URL with the href verbatim.
pub open spec fn extracted(
    base: Seq<char>,
    hrefs: Seq<Option<Seq<char>>>,
    ftype: FileType,
) -> Seq<Seq<char>>
    decreases hrefs.len(),
{
    if hrefs.len() == 0 {
        Seq::empty()
    } else {
        let rest = extracted(base, hrefs.drop_last(), ftype);
        let h = href_of(hrefs.last());
        if href_matches(h, ftype) {
            rest.push(base + h)
        } else {
            rest
        }
    }
}

/// No filter matches the empty href: `All` wants a `.` somewhere, and each
/// named variant's suffix is at least four characters long.
pub proof fn lemma_empty_href_never_matches(ftype: FileType)
    ensures
        !href_matches(Seq::empty(), ftype),
{
    reveal_strlit(".pdf");
    reveal_strlit(".doc");
    reveal_strlit(".docx");
    reveal_strlit(".xlsx");
    reveal_strlit(".csv");
    reveal_strlit(".ppt");
    reveal_strlit(".pptx");
    assert(ftype != FileType::All ==> suffix_spec(ftype).len() >= 4);
}

/// An anchor without an `href` attribute never contributes a link: the
/// extraction of a page is the extraction of the same page with that
/// anchor left out, whatever the filter, so one bare anchor cannot
/// disturb the anchors around it.
pub proof fn lemma_missing_href_skipped(
    base: Seq<char>,
    hrefs: Seq<Option<Seq<char>>>,
    j: int,
    ftype: FileType,
)
    requires
        0 <= j < hrefs.len(),
        hrefs[j] is None,
    ensures
        extracted(base, hrefs, ftype) == extracted(base, hrefs.remove(j), ftype),
    decreases hrefs.len(),
{
    lemma_empty_href_never_matches(ftype);
    if j == hrefs.len() - 1 {
        assert(hrefs.remove(j) =~= hrefs.drop_last());
    } else {
        lemma_missing_href_skipped(base, hrefs.drop_last(), j, ftype);
        assert(hrefs.remove(j).drop_last() =~= hrefs.drop_last().remove(j));
        assert(hrefs.remove(j).last() == hrefs.last());
    }
}

/// Decides the filter predicate for one href string.
pub fn matches_filter(href: &str, ftype: FileType) -> (r: bool)
    ensures
        r == href_matches(href@, ftype),
{
    if ftype == FileType::All {
        contains_char(href, '.')
    } else {
        ends_with_str(href, ftype.suffix())
    }
}

/// Keeps exactly the hrefs that match the filter, in document order, each
/// resolved against the base URL; `None` exactly when nothing matches, so
/// an empty page and a page of non-matching anchors both mean "no work".
/// An anchor without an `href` attribute never matches and is skipped
/// without disturbing the anchors after it.
pub fn extract_from_hrefs(base_url: &str, hrefs: &Vec<Option<String>>, ftype: FileType) -> (r:
    Option<Vec<String>>)
    ensures
        r is Some <==> extracted(base_url@, hrefs.deep_view(), ftype).len() > 0,
        r matches Some(v) ==> v.deep_view() == extracted(base_url@, hrefs.deep_view(), ftype),
{
    let ghost all: Seq<Option<Seq<char>>> = hrefs.deep_view();
    let mut out: Vec<String> = Vec::new();
    let mut i: usize = 0;
    proof {
        assert(out.deep_view() =~= extracted(base_url@, all.take(0), ftype));
    }
    while i < hrefs.len()
        invariant
            0 <= i <= hrefs.len(),
            all == hrefs.deep_view(),
            all.len() == hrefs@.len(),
            out.deep_view() == extracted(base_url@, all.take(i as int), ftype),
        decreases hrefs.len() - i,
    {
        let ghost prev = out.deep_view();
        let href: &str = match &hrefs[i] {
            Some(h) => h.as_str(),
            None => "",
        };
        proof {
            reveal_strlit("");
            assert(""@ =~= Seq::<char>::empty());
            assert(all[i as int] == hrefs@[i as int].deep_view());
            assert(href@ == href_of(all[i as int]));
        }
        if matches_filter(href, ftype) {
            out.push(concat_str(base_url, href));
            proof {
                assert(out.deep_view() =~= prev.push(base_url@ + href@));
            }
        }
        proof {
            assert(all.take(i + 1).drop_last() =~= all.take(i as int));
            assert(all.take(i + 1).last() == all[i as int]);
        }
        i = i + 1;
    }
    proof {
        assert(all.take(hrefs@.len() as int) =~= all);
    }
    if out.len() > 0 {
        Some(out)
    } else {
        None
    }
}

/// Parses the page and extracts the matching links: `None` when no anchor
/// qualifies (an empty result is "nothing to download", not an error).
pub fn extract(base_url: &str, html: &str, ftype: FileType) -> (r: Option<Vec<String>>)
    ensures
        r is Some <==> extracted(base_url@, anchor_hrefs(html@), ftype).len() > 0,
        r matches Some(v) ==> v.deep_view() == extracted(base_url@, anchor_hrefs(html@), ftype),
{
    let hrefs = anchor_hrefs_of(html);
    extract_from_hrefs(base_url, &hrefs, ftype)
}

} // verus!
