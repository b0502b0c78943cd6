use vstd::prelude::*;
use crate::errors::Error;
use crate::base_url;
use crate::base_url_str;

verus! {

/// The archive endpoint is always asked for this many listings, starting
/// at offset zero; a selection index must lie below it.
pub const LISTING_WINDOW: usize = 10;

/// One entry of the listing returned by the archive endpoint: a
/// human-readable title and a download path relative to the base origin.
pub struct WallpaperEntry {
    pub title: String,
    pub url: String,
}

/// A selected wallpaper: its title and its absolute download URL.
pub struct ResolvedWallpaper {
    pub title: String,
    pub url: String,
}

/// The fixed query path for a listing request with the given region code.
pub open spec fn listing_query(region: Seq<char>) -> Seq<char> {
    "/HPImageArchive.aspx?format=js&idx=0&n=10&mkt="@ + region
}

/// The absolute download URL of an entry with the given relative path.
pub open spec fn resolved_url_of(rel: Seq<char>) -> Seq<char> {
    base_url() + rel
}

/// Builds the archive query URL for a listing request. An empty region
/// leaves the market parameter empty, which the server reads as its default.
pub fn listing_request_url(region: &str) -> (r: String)
    ensures
        r@ == base_url() + listing_query(region@),
{
    let mut s = String::from_str(base_url_str());
    s.append("/HPImageArchive.aspx?format=js&idx=0&n=10&mkt=");
    s.append(region);
    proof {
        assert(s@ =~= base_url() + listing_query(region@));
    }
    s
}

/// Selects the entry at position `num` of the listing and resolves its
/// absolute download URL by prefixing the fixed base origin. An index at
/// or past the window size, or past the end of the listing, is rejected:
/// there is no clamping and no fallback.
pub fn resolve_wallpaper(entries: &Vec<WallpaperEntry>, num: usize) -> (r: Result<
    ResolvedWallpaper,
    Error,
>)
    ensures
        r is Ok <==> (num < entries@.len() && num < LISTING_WINDOW),
        r matches Ok(w) ==> w.title@ == entries@[num as int].title@,
        r matches Ok(w) ==> w.url@ == resolved_url_of(entries@[num as int].url@),
        r matches Err(e) ==> e is IndexOutOfRange,
{
    if num < entries.len() && num < LISTING_WINDOW {
        let entry = &entries[num];
        let url = String::from_str(base_url_str()).concat(entry.url.as_str());
        Ok(ResolvedWallpaper { title: entry.title.clone(), url })
    } else {
        Err(Error::IndexOutOfRange)
    }
}

/// For every listing and every index inside both the window and the
/// listing, the resolved download URL is a non-empty string that begins
/// with the fixed base origin.
pub proof fn lemma_resolved_url_absolute(rels: Seq<Seq<char>>, num: int)
    requires
        0 <= num < rels.len(),
        num < LISTING_WINDOW,
    ensures
        resolved_url_of(rels[num]).len() > 0,
        resolved_url_of(rels[num]).subrange(0, base_url().len() as int) == base_url(),
{
    reveal_strlit("https://www.bing.com");
    assert(base_url().len() == 20);
    assert(resolved_url_of(rels[num]).subrange(0, base_url().len() as int) =~= base_url());
}

} // verus!
