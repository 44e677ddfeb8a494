//! The control surface's data model: the request and response shapes the
//! request-handling layer exchanges with its clients, and the pagination
//! rules it applies to listings.

use vstd::prelude::*;

verus! {

/// Rows shown per listing page.
pub const PAGE_SIZE: usize = 100;

/// A successful command acknowledgement.
#[derive(Debug, PartialEq, Eq)]
pub struct SuccessPostResponse {
    /// Always reads "ok".
    pub status: String,
}

/// A failed request.
#[derive(Debug, PartialEq, Eq)]
pub struct ErrorResponse {
    /// Always reads "error".
    pub status: String,
    /// What went wrong, for the client.
    pub error_message: String,
}

/// One listed song.
#[derive(Debug, PartialEq, Eq)]
pub struct Song {
    /// The record's stable identity.
    pub id: u64,
    /// Display title.
    pub name: String,
    /// The artist's stable identity.
    pub artist_id: u64,
    /// Display artist name.
    pub artist_name: String,
    /// Whether the song is among the caller's favorites.
    pub favorite: bool,
}

/// One listed artist.
#[derive(Debug, PartialEq, Eq)]
pub struct Artist {
    /// The artist's stable identity.
    pub id: u64,
    /// Display artist name.
    pub name: String,
    /// How many songs the artist has.
    pub num_songs: usize,
}

/// Which column a listing is sorted by.
#[derive(Debug, PartialEq, Eq, Structural, Clone, Copy)]
pub enum SortKey {
    /// Sort by song title.
    Song,
    /// Sort by artist name.
    Artist,
    /// Sort by an artist's song count.
    NumSongs,
}

/// Which way a listing is sorted.
#[derive(Debug, PartialEq, Eq, Structural, Clone, Copy)]
pub enum SortDirection {
    /// Ascending.
    Asc,
    /// Descending.
    Desc,
}

/// The query parameters of a listing request.
#[derive(Debug)]
pub struct RequestParams {
    /// The page asked for, counted from one.
    pub page: Option<u32>,
    /// Free-text filter over names.
    pub query: Option<String>,
    /// Restrict to one artist.
    pub artist_id: Option<u64>,
    /// Sort column.
    pub sort_key: Option<SortKey>,
    /// Sort direction.
    pub sort_direction: Option<SortDirection>,
    /// Restrict to favorites.
    pub favorites_only: Option<bool>,
}

impl Default for RequestParams {
    /// No filters, no explicit page, no explicit order.
    fn default() -> (r: RequestParams)
        ensures
            r.page is None,
            r.query is None,
            r.artist_id is None,
            r.sort_key is None,
            r.sort_direction is None,
            r.favorites_only is None,
    {
        RequestParams {
            page: None,
            query: None,
            artist_id: None,
            sort_key: None,
            sort_direction: None,
            favorites_only: None,
        }
    }
}

/// The body of a command that names one song.
#[derive(Debug, PartialEq, Eq, Structural, Clone, Copy)]
pub struct PostSong {
    /// The record's stable identity.
    pub hash: u64,
}

/// How many pages a listing of `count` rows spans: the smallest number of
/// full pages covering every row, and none for an empty listing.
pub open spec fn spec_total_pages(count: int) -> int {
    (count + PAGE_SIZE - 1) / PAGE_SIZE as int
}

/// Compute the page count of a listing.
pub fn total_pages(count: usize) -> (r: u32)
    requires
        count as int <= 429_496_729_500,
    ensures
        r == spec_total_pages(count as int),
        count == 0 ==> r == 0,
        count > 0 ==> (r - 1) * PAGE_SIZE < count <= r * PAGE_SIZE,
{
    proof {
        vstd::arithmetic::div_mod::lemma_fundamental_div_mod(
            count as int + PAGE_SIZE - 1,
            PAGE_SIZE as int,
        );
        vstd::arithmetic::div_mod::lemma_div_is_ordered(
            count as int + PAGE_SIZE - 1,
            429_496_729_599,
            PAGE_SIZE as int,
        );
    }
    let pages64: u64 = (count as u64 + (PAGE_SIZE as u64) - 1) / (PAGE_SIZE as u64);
    pages64 as u32
}

/// Whether a requested page number is answerable: pages count from one,
/// and only the empty listing answers its (absent) first page.
pub open spec fn spec_page_ok(page: int, pages: int) -> bool {
    !(page == 0 || (page > pages && pages > 0))
}

/// The rows of page `page`: the half-open range of row indices it covers.
pub open spec fn spec_page_bounds(len: int, page: int) -> (int, int) {
    let start = (page - 1) * PAGE_SIZE;
    ((if start <= len {
        start
    } else {
        len
    }), (if start + PAGE_SIZE <= len {
        start + PAGE_SIZE
    } else {
        len
    }))
}

/// Decide whether `page` is answerable for a listing of `len` rows, and
/// which row range it covers. The error branch mirrors the listing
/// endpoints: page zero, or a page past the end of a non-empty listing,
/// is refused.
pub fn page_bounds(len: usize, page: u32) -> (r: Option<(usize, usize)>)
    requires
        len as int <= 429_496_729_500,
    ensures
        ({
            let pages = spec_total_pages(len as int);
            if spec_page_ok(page as int, pages) {
                r matches Some(b) && (b.0 as int, b.1 as int) == spec_page_bounds(
                    len as int,
                    page as int,
                )
            } else {
                r is None
            }
        }),
{
    let pages = total_pages(len);
    if page == 0 || (page > pages && pages > 0) {
        return None;
    }
    let p64: u64 = page as u64;
    proof {
        assert(p64 >= 1);
        assert((p64 - 1) * (PAGE_SIZE as u64) <= 0xffff_fffeu64 * 100) by (nonlinear_arith)
            requires
                1 <= p64 <= 0xffff_ffffu64,
        ;
    }
    let start_raw: u64 = (p64 - 1) * (PAGE_SIZE as u64);
    let start: usize = if start_raw <= len as u64 {
        start_raw as usize
    } else {
        len
    };
    let end: usize = if start_raw + (PAGE_SIZE as u64) <= len as u64 {
        (start_raw + PAGE_SIZE as u64) as usize
    } else {
        len
    };
    Some((start, end))
}

} // verus!
