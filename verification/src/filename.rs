use vstd::prelude::*;
use crate::errors::Error;

verus! {

/// The name used when the download URL carries no `id` query parameter.
pub open spec fn default_filename() -> Seq<char> {
    "bwp.jpg"@
}

/// Whether `url::Url::parse` accepts the string as an absolute URL.
pub uninterp spec fn url_is_valid(s: Seq<char>) -> bool;

/// The percent-decoded key/value pairs of the URL's query string, in
/// order, as `url::Url::query_pairs` returns them.
pub uninterp spec fn url_query_pairs(s: Seq<char>) -> Seq<(Seq<char>, Seq<char>)>;

/// The view of a sequence of owned key/value pairs.
pub open spec fn pairs_view(pairs: Seq<(String, String)>) -> Seq<(Seq<char>, Seq<char>)> {
    pairs.map_values(|p: (String, String)| (p.0@, p.1@))
}

/// The error type of `url::Url::parse`.
#[verifier::external_type_specification]
#[verifier::external_body]
pub struct ExParseError(url::ParseError);

/// Relies on `url::Url::parse`, which accepts exactly the absolute URLs of
/// the URL standard, and on `url::Url::query_pairs`, which splits the
/// parsed URL's query string into percent-decoded key/value pairs in
/// order. Both results depend on the input string alone.
#[verifier::external_body]
fn parse_query_pairs(url: &str) -> (r: Result<Vec<(String, String)>, url::ParseError>)
    ensures
        r is Ok <==> url_is_valid(url@),
        r matches Ok(pairs) ==> pairs_view(pairs@) == url_query_pairs(url@),
{
    let parsed = url::Url::parse(url)?;
    Ok(parsed.query_pairs().map(|(k, v)| (k.into_owned(), v.into_owned())).collect())
}

/// The filename derived from a query string: the value of the last pair
/// whose key is `id`, or the default name when no pair has that key.
pub open spec fn filename_of_pairs(pairs: Seq<(Seq<char>, Seq<char>)>) -> Seq<char>
    decreases pairs.len(),
{
    if pairs.len() == 0 {
        default_filename()
    } else if pairs.last().0 == "id"@ {
        pairs.last().1
    } else {
        filename_of_pairs(pairs.drop_last())
    }
}

/// Scans the query pairs for a parameter named `id` and returns its
/// (already percent-decoded) value; later occurrences override earlier
/// ones, and without one the fixed default name is returned.
pub fn filename_from_pairs(pairs: &Vec<(String, String)>) -> (r: String)
    ensures
        r@ == filename_of_pairs(pairs_view(pairs@)),
{
    let id_key = String::from_str("id");
    let mut name = String::from_str("bwp.jpg");
    let mut i: usize = 0;
    while i < pairs.len()
        invariant
            i <= pairs@.len(),
            id_key@ == "id"@,
            name@ == filename_of_pairs(pairs_view(pairs@).take(i as int)),
        decreases pairs@.len() - i,
    {
        if pairs[i].0 == id_key {
            name = pairs[i].1.clone();
        }
        proof {
            let pv = pairs_view(pairs@);
            assert(pv.take(i + 1).drop_last() =~= pv.take(i as int));
            assert(pv.take(i + 1).last() == pv[i as int]);
        }
        i += 1;
    }
    proof {
        assert(pairs_view(pairs@).take(pairs@.len() as int) =~= pairs_view(pairs@));
    }
    name
}

/// Determines the name under which the image at the given download URL is
/// persisted: the URL's `id` query parameter if present, else the fixed
/// default name. A string that is not an absolute URL is rejected.
pub fn derive_filename(url: &str) -> (r: Result<String, Error>)
    ensures
        r is Ok <==> url_is_valid(url@),
        r matches Ok(name) ==> name@ == filename_of_pairs(url_query_pairs(url@)),
        r matches Err(e) ==> e is InvalidUrl,
{
    match parse_query_pairs(url) {
        Ok(pairs) => Ok(filename_from_pairs(&pairs)),
        Err(_) => Err(Error::InvalidUrl),
    }
}

/// A query string without an `id` key always derives the default name.
pub proof fn lemma_filename_without_id(pairs: Seq<(Seq<char>, Seq<char>)>)
    requires
        forall|i: int| 0 <= i < pairs.len() ==> (#[trigger] pairs[i]).0 != "id"@,
    ensures
        filename_of_pairs(pairs) == default_filename(),
    decreases pairs.len(),
{
    if pairs.len() > 0 {
        lemma_filename_without_id(pairs.drop_last());
    }
}

/// A query string whose last `id` pair stands at position `j` derives
/// exactly that pair's value: the last occurrence wins.
pub proof fn lemma_filename_last_id(pairs: Seq<(Seq<char>, Seq<char>)>, j: int)
    requires
        0 <= j < pairs.len(),
        pairs[j].0 == "id"@,
        forall|k: int| j < k < pairs.len() ==> (#[trigger] pairs[k]).0 != "id"@,
    ensures
        filename_of_pairs(pairs) == pairs[j].1,
    decreases pairs.len(),
{
    if j == pairs.len() - 1 {
    } else {
        lemma_filename_last_id(pairs.drop_last(), j);
    }
}

} // verus!
