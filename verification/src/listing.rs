//! The listing pipeline of the control surface: filtering songs by
//! favorites, artist and free-text query, and ordering them
//! case-insensitively by title or artist.

use crate::model::{Artist, Song, SortKey};
use crate::parse::find_from;
use vstd::multiset::Multiset;
use vstd::prelude::*;

verus! {

/// What lowercasing a string yields; a function of the characters alone.
pub uninterp spec fn lower_of(s: Seq<char>) -> Seq<char>;

/// Relies on `str::to_lowercase`: the result depends on the characters
/// alone.
#[verifier::external_body]
fn lowercase(s: &str) -> (r: String)
    ensures
        r@ == lower_of(s@),
{
    s.to_lowercase()
}

/// Lexicographic order over character sequences, by code point.
pub open spec fn lex_le(a: Seq<char>, b: Seq<char>) -> bool
    decreases a.len(),
{
    if a.len() == 0 {
        true
    } else if b.len() == 0 {
        false
    } else if (a[0] as u32) < (b[0] as u32) {
        true
    } else if (a[0] as u32) > (b[0] as u32) {
        false
    } else {
        lex_le(a.drop_first(), b.drop_first())
    }
}

/// Any two sequences compare one way or the other.
pub proof fn lemma_lex_total(a: Seq<char>, b: Seq<char>)
    ensures
        lex_le(a, b) || lex_le(b, a),
    decreases a.len(),
{
    if a.len() > 0 && b.len() > 0 && (a[0] as u32) == (b[0] as u32) {
        lemma_lex_total(a.drop_first(), b.drop_first());
    }
}

/// The order chains: what is at most `b`, and `b` at most `c`, is at most
/// `c`.
pub proof fn lemma_lex_trans(a: Seq<char>, b: Seq<char>, c: Seq<char>)
    requires
        lex_le(a, b),
        lex_le(b, c),
    ensures
        lex_le(a, c),
    decreases a.len(),
{
    if a.len() > 0 && b.len() > 0 && c.len() > 0 && (a[0] as u32) == (b[0] as u32) && (b[0] as u32)
        == (c[0] as u32) {
        lemma_lex_trans(a.drop_first(), b.drop_first(), c.drop_first());
    }
}

/// Compare two strings lexicographically.
fn str_le(a: &str, b: &str) -> (r: bool)
    ensures
        r == lex_le(a@, b@),
{
    let al = a.unicode_len();
    let bl = b.unicode_len();
    let mut i: usize = 0;
    proof {
        assert(a@.skip(0) =~= a@);
        assert(b@.skip(0) =~= b@);
    }
    loop
        invariant
            al == a@.len(),
            bl == b@.len(),
            i <= al,
            i <= bl,
            lex_le(a@, b@) == lex_le(a@.skip(i as int), b@.skip(i as int)),
        decreases al - i,
    {
        proof {
            assert(a@.skip(i as int).len() == al - i);
            assert(b@.skip(i as int).len() == bl - i);
        }
        if i == al {
            return true;
        }
        if i == bl {
            return false;
        }
        let ca = a.get_char(i);
        let cb = b.get_char(i);
        proof {
            assert(a@.skip(i as int)[0] == a@[i as int]);
            assert(b@.skip(i as int)[0] == b@[i as int]);
            assert(a@.skip(i as int).drop_first() =~= a@.skip(i + 1));
            assert(b@.skip(i as int).drop_first() =~= b@.skip(i + 1));
        }
        if (ca as u32) < (cb as u32) {
            return true;
        }
        if (ca as u32) > (cb as u32) {
            return false;
        }
        i = i + 1;
    }
}

/// The sequence a song is ordered by: its lowercased artist name when
/// sorting by artist, else its lowercased title.
pub open spec fn song_sort_key(s: Song, key: SortKey) -> Seq<char> {
    match key {
        SortKey::Artist => lower_of(s.artist_name@),
        _ => lower_of(s.name@),
    }
}

/// Whether `x` comes no later than `y` under the chosen column and
/// direction.
pub open spec fn song_le(x: Song, y: Song, key: SortKey, descending: bool) -> bool {
    if descending {
        lex_le(song_sort_key(y, key), song_sort_key(x, key))
    } else {
        lex_le(song_sort_key(x, key), song_sort_key(y, key))
    }
}

/// A listing in the chosen order.
pub open spec fn songs_sorted(v: Seq<Song>, key: SortKey, descending: bool) -> bool {
    forall|i: int, j: int|
        0 <= i < j < v.len() ==> song_le(#[trigger] v[i], #[trigger] v[j], key, descending)
}

/// Compare two songs under the chosen column and direction.
fn song_le_exec(x: &Song, y: &Song, key: SortKey, descending: bool) -> (r: bool)
    ensures
        r == song_le(*x, *y, key, descending),
{
    let kx = match key {
        SortKey::Artist => lowercase(x.artist_name.as_str()),
        _ => lowercase(x.name.as_str()),
    };
    let ky = match key {
        SortKey::Artist => lowercase(y.artist_name.as_str()),
        _ => lowercase(y.name.as_str()),
    };
    if descending {
        str_le(ky.as_str(), kx.as_str())
    } else {
        str_le(kx.as_str(), ky.as_str())
    }
}

/// Place `s` into the ordered listing `out`, keeping it ordered.
fn insert_sorted(out: &mut Vec<Song>, s: Song, key: SortKey, descending: bool)
    requires
        songs_sorted(old(out)@, key, descending),
    ensures
        songs_sorted(final(out)@, key, descending),
        final(out)@.to_multiset() == old(out)@.to_multiset().insert(s),
{
    let n = out.len();
    let mut p: usize = 0;
    loop
        invariant
            n == out@.len(),
            p <= n,
            forall|k: int| 0 <= k < p ==> song_le(#[trigger] out@[k], s, key, descending),
        ensures
            p <= n,
            forall|k: int| 0 <= k < p ==> song_le(#[trigger] out@[k], s, key, descending),
            p < n ==> !song_le(out@[p as int], s, key, descending),
        decreases n - p,
    {
        if p == n {
            break ;
        }
        if !song_le_exec(&out[p], &s, key, descending) {
            break ;
        }
        p = p + 1;
    }
    proof {
        if p < n {
            lemma_lex_total(song_sort_key(s, key), song_sort_key(out@[p as int], key));
            assert(song_le(s, out@[p as int], key, descending));
        }
        assert forall|k: int| p <= k < n implies song_le(
            s,
            #[trigger] out@[k],
            key,
            descending,
        ) by {
            if k > p {
                assert(song_le(out@[p as int], out@[k], key, descending));
                if descending {
                    lemma_lex_trans(
                        song_sort_key(out@[k], key),
                        song_sort_key(out@[p as int], key),
                        song_sort_key(s, key),
                    );
                } else {
                    lemma_lex_trans(
                        song_sort_key(s, key),
                        song_sort_key(out@[p as int], key),
                        song_sort_key(out@[k], key),
                    );
                }
            }
        }
    }
    let ghost pre = out@;
    out.insert(p, s);
    proof {
        assert forall|i: int, j: int| 0 <= i < j < out@.len() implies song_le(
            #[trigger] out@[i],
            #[trigger] out@[j],
            key,
            descending,
        ) by {
            let pi = p as int;
            if i < pi && j < pi {
                assert(out@[i] == pre[i] && out@[j] == pre[j]);
            } else if i < pi && j == pi {
                assert(out@[i] == pre[i] && out@[j] == s);
            } else if i < pi && j > pi {
                assert(out@[i] == pre[i] && out@[j] == pre[j - 1]);
            } else if i == pi {
                assert(out@[i] == s && out@[j] == pre[j - 1]);
            } else {
                assert(out@[i] == pre[i - 1] && out@[j] == pre[j - 1]);
            }
        }
        broadcast use vstd::seq_lib::group_to_multiset_ensures;

        assert(out@.remove(p as int) =~= pre);
        assert(out@.to_multiset().remove(s) =~= pre.to_multiset());
        assert(out@.to_multiset().contains(s));
        assert(out@.to_multiset() =~= pre.to_multiset().insert(s));
    }
}

/// Order a listing by the chosen column and direction. The result holds
/// exactly the given songs, in order.
#[verifier::loop_isolation(false)]
pub fn sort_songs(songs: Vec<Song>, key: SortKey, descending: bool) -> (r: Vec<Song>)
    ensures
        songs_sorted(r@, key, descending),
        r@.to_multiset() == songs@.to_multiset(),
{
    broadcast use vstd::seq_lib::group_to_multiset_ensures;

    let mut remaining = songs;
    let mut out: Vec<Song> = Vec::new();
    proof {
        assert(out@.to_multiset() =~= Multiset::<Song>::empty());
    }
    while remaining.len() > 0
        invariant
            songs_sorted(out@, key, descending),
            remaining@.to_multiset().add(out@.to_multiset()) == songs@.to_multiset(),
        decreases remaining.len(),
    {
        let ghost pre = remaining@;
        let s = remaining.pop().unwrap();
        proof {
            assert(pre.drop_last().push(s) =~= pre);
            assert(pre.to_multiset() =~= remaining@.to_multiset().insert(s));
        }
        insert_sorted(&mut out, s, key, descending);
        proof {
            assert(remaining@.to_multiset().add(out@.to_multiset()) =~= songs@.to_multiset());
        }
    }
    proof {
        assert(remaining@ =~= Seq::<Song>::empty());
        assert(remaining@.to_multiset() =~= Multiset::<Song>::empty());
        assert(out@.to_multiset() =~= songs@.to_multiset());
    }
    out
}

/// Whether a song stays in the listing under the given filters: favorites
/// only where asked, one artist where asked, and — where a query is given —
/// a case-insensitive match of the query inside the title or artist name.
pub open spec fn song_matches(
    s: Song,
    favorites_only: bool,
    artist_id: Option<u64>,
    query: Option<Seq<char>>,
) -> bool {
    &&& (favorites_only ==> s.favorite)
    &&& (artist_id matches Some(id) ==> s.artist_id == id)
    &&& (query matches Some(q) ==> (find_from(lower_of(s.name@), lower_of(q), 0) is Some
        || find_from(lower_of(s.artist_name@), lower_of(q), 0) is Some))
}

/// Whether the lowercased needle occurs in the lowercased haystack.
fn contains_lower(hay: &str, needle_lower: &str) -> (r: bool)
    ensures
        r == (find_from(lower_of(hay@), needle_lower@, 0) is Some),
{
    let hay_lower = lowercase(hay);
    crate::parse::find_str_from(hay_lower.as_str(), needle_lower, 0).is_some()
}

/// Keep exactly the songs the filters admit, in their given order.
#[verifier::loop_isolation(false)]
pub fn filter_songs(
    songs: Vec<Song>,
    favorites_only: bool,
    artist_id: Option<u64>,
    query: Option<&String>,
) -> (r: Vec<Song>)
    ensures
        ({
            let q = match query {
                Some(q) => Some(q@),
                None => None,
            };
            r@ == songs@.filter(
                |s: Song| song_matches(s, favorites_only, artist_id, q),
            )
        }),
{
    let ghost q: Option<Seq<char>> = match query {
        Some(q) => Some(q@),
        None => None,
    };
    let ghost pred = |s: Song| song_matches(s, favorites_only, artist_id, q);
    let query_lower: Option<String> = match query {
        Some(q) => Some(lowercase(q.as_str())),
        None => None,
    };
    let mut remaining = songs;
    let mut out: Vec<Song> = Vec::new();
    let ghost all = remaining@;
    let total = remaining.len();
    let mut i: usize = 0;
    proof {
        assert(all.len() == total);
        reveal(Seq::filter);
        assert(all.take(0).filter(pred) =~= Seq::<Song>::empty());
    }
    while remaining.len() > 0
        invariant
            all.len() <= usize::MAX,
            remaining@ =~= all.skip(i as int),
            i + remaining@.len() == all.len(),
            out@ == all.take(i as int).filter(pred),
        decreases remaining.len(),
    {
        let ghost pre = remaining@;
        let s = remaining.remove(0);
        proof {
            assert(pre[0] == all[i as int]);
            assert(pre.drop_first() =~= all.skip(i + 1));
        }
        let keep_fav = !favorites_only || s.favorite;
        let keep_artist = match artist_id {
            Some(id) => s.artist_id == id,
            None => true,
        };
        let keep_query = match &query_lower {
            Some(l) => contains_lower(s.name.as_str(), l.as_str()) || contains_lower(
                s.artist_name.as_str(),
                l.as_str(),
            ),
            None => true,
        };
        proof {
            assert((keep_fav && keep_artist && keep_query) == song_matches(
                s,
                favorites_only,
                artist_id,
                q,
            ));
        }
        if keep_fav && keep_artist && keep_query {
            out.push(s);
        }
        proof {
            reveal(Seq::filter);
            assert(all.take(i + 1).drop_last() =~= all.take(i as int));
            assert(all.take(i + 1).last() == all[i as int]);
            assert(out@ == all.take(i + 1).filter(pred));
        }
        i = i + 1;
    }
    proof {
        assert(all.take(i as int) =~= all);
    }
    out
}


/// Whether artist row `x` comes no later than `y` under the chosen column
/// and direction: by song count where asked, else case-insensitively by
/// name.
pub open spec fn artist_le(x: Artist, y: Artist, key: SortKey, descending: bool) -> bool {
    let (a, b) = if descending {
        (y, x)
    } else {
        (x, y)
    };
    match key {
        SortKey::NumSongs => a.num_songs <= b.num_songs,
        _ => lex_le(lower_of(a.name@), lower_of(b.name@)),
    }
}

/// An artist listing in the chosen order.
pub open spec fn artists_sorted(v: Seq<Artist>, key: SortKey, descending: bool) -> bool {
    forall|i: int, j: int|
        0 <= i < j < v.len() ==> artist_le(#[trigger] v[i], #[trigger] v[j], key, descending)
}

/// Compare two artist rows under the chosen column and direction.
fn artist_le_exec(x: &Artist, y: &Artist, key: SortKey, descending: bool) -> (r: bool)
    ensures
        r == artist_le(*x, *y, key, descending),
{
    let (a, b) = if descending {
        (y, x)
    } else {
        (x, y)
    };
    match key {
        SortKey::NumSongs => a.num_songs <= b.num_songs,
        _ => {
            let ka = lowercase(a.name.as_str());
            let kb = lowercase(b.name.as_str());
            str_le(ka.as_str(), kb.as_str())
        },
    }
}

/// Place `a` into the ordered artist listing `out`, keeping it ordered.
fn insert_artist_sorted(out: &mut Vec<Artist>, a: Artist, key: SortKey, descending: bool)
    requires
        artists_sorted(old(out)@, key, descending),
    ensures
        artists_sorted(final(out)@, key, descending),
        final(out)@.to_multiset() == old(out)@.to_multiset().insert(a),
{
    let n = out.len();
    let mut p: usize = 0;
    loop
        invariant
            n == out@.len(),
            p <= n,
            forall|k: int| 0 <= k < p ==> artist_le(#[trigger] out@[k], a, key, descending),
        ensures
            p <= n,
            forall|k: int| 0 <= k < p ==> artist_le(#[trigger] out@[k], a, key, descending),
            p < n ==> !artist_le(out@[p as int], a, key, descending),
        decreases n - p,
    {
        if p == n {
            break ;
        }
        if !artist_le_exec(&out[p], &a, key, descending) {
            break ;
        }
        p = p + 1;
    }
    proof {
        if p < n {
            if !(key is NumSongs) {
                lemma_lex_total(
                    lower_of(a.name@),
                    lower_of(out@[p as int].name@),
                );
            }
            assert(artist_le(a, out@[p as int], key, descending));
        }
        assert forall|k: int| p <= k < n implies artist_le(
            a,
            #[trigger] out@[k],
            key,
            descending,
        ) by {
            if k > p {
                assert(artist_le(out@[p as int], out@[k], key, descending));
                if !(key is NumSongs) {
                    if descending {
                        lemma_lex_trans(
                            lower_of(out@[k].name@),
                            lower_of(out@[p as int].name@),
                            lower_of(a.name@),
                        );
                    } else {
                        lemma_lex_trans(
                            lower_of(a.name@),
                            lower_of(out@[p as int].name@),
                            lower_of(out@[k].name@),
                        );
                    }
                }
            }
        }
    }
    let ghost pre = out@;
    out.insert(p, a);
    proof {
        assert forall|i: int, j: int| 0 <= i < j < out@.len() implies artist_le(
            #[trigger] out@[i],
            #[trigger] out@[j],
            key,
            descending,
        ) by {
            let pi = p as int;
            if i < pi && j < pi {
                assert(out@[i] == pre[i] && out@[j] == pre[j]);
            } else if i < pi && j == pi {
                assert(out@[i] == pre[i] && out@[j] == a);
            } else if i < pi && j > pi {
                assert(out@[i] == pre[i] && out@[j] == pre[j - 1]);
            } else if i == pi {
                assert(out@[i] == a && out@[j] == pre[j - 1]);
            } else {
                assert(out@[i] == pre[i - 1] && out@[j] == pre[j - 1]);
            }
        }
        broadcast use vstd::seq_lib::group_to_multiset_ensures;

        assert(out@.remove(p as int) =~= pre);
        assert(out@.to_multiset().remove(a) =~= pre.to_multiset());
        assert(out@.to_multiset().contains(a));
        assert(out@.to_multiset() =~= pre.to_multiset().insert(a));
    }
}

/// Order an artist listing by the chosen column and direction. The result
/// holds exactly the given artists, in order.
#[verifier::loop_isolation(false)]
pub fn sort_artists(artists: Vec<Artist>, key: SortKey, descending: bool) -> (r: Vec<Artist>)
    ensures
        artists_sorted(r@, key, descending),
        r@.to_multiset() == artists@.to_multiset(),
{
    broadcast use vstd::seq_lib::group_to_multiset_ensures;

    let mut remaining = artists;
    let mut out: Vec<Artist> = Vec::new();
    proof {
        assert(out@.to_multiset() =~= Multiset::<Artist>::empty());
    }
    while remaining.len() > 0
        invariant
            artists_sorted(out@, key, descending),
            remaining@.to_multiset().add(out@.to_multiset()) == artists@.to_multiset(),
        decreases remaining.len(),
    {
        let ghost pre = remaining@;
        let a = remaining.pop().unwrap();
        proof {
            assert(pre.drop_last().push(a) =~= pre);
            assert(pre.to_multiset() =~= remaining@.to_multiset().insert(a));
        }
        insert_artist_sorted(&mut out, a, key, descending);
        proof {
            assert(remaining@.to_multiset().add(out@.to_multiset()) =~= artists@.to_multiset());
        }
    }
    proof {
        assert(remaining@ =~= Seq::<Artist>::empty());
        assert(remaining@.to_multiset() =~= Multiset::<Artist>::empty());
        assert(out@.to_multiset() =~= artists@.to_multiset());
    }
    out
}

/// Whether an artist row stays in the listing: one artist where asked, and
/// — where a query is given — a case-insensitive match inside the name.
pub open spec fn artist_matches(a: Artist, artist_id: Option<u64>, query: Option<Seq<char>>) -> bool {
    &&& (artist_id matches Some(id) ==> a.id == id)
    &&& (query matches Some(q) ==> find_from(lower_of(a.name@), lower_of(q), 0) is Some)
}

/// Keep exactly the artist rows the filters admit, in their given order.
#[verifier::loop_isolation(false)]
pub fn filter_artists(artists: Vec<Artist>, artist_id: Option<u64>, query: Option<&String>) -> (r:
    Vec<Artist>)
    ensures
        ({
            let q = match query {
                Some(q) => Some(q@),
                None => None,
            };
            r@ == artists@.filter(|a: Artist| artist_matches(a, artist_id, q))
        }),
{
    let ghost q: Option<Seq<char>> = match query {
        Some(q) => Some(q@),
        None => None,
    };
    let ghost pred = |a: Artist| artist_matches(a, artist_id, q);
    let query_lower: Option<String> = match query {
        Some(q) => Some(lowercase(q.as_str())),
        None => None,
    };
    let mut remaining = artists;
    let mut out: Vec<Artist> = Vec::new();
    let ghost all = remaining@;
    let total = remaining.len();
    let mut i: usize = 0;
    proof {
        assert(all.len() == total);
        reveal(Seq::filter);
        assert(all.take(0).filter(pred) =~= Seq::<Artist>::empty());
    }
    while remaining.len() > 0
        invariant
            all.len() <= usize::MAX,
            remaining@ =~= all.skip(i as int),
            i + remaining@.len() == all.len(),
            out@ == all.take(i as int).filter(pred),
        decreases remaining.len(),
    {
        let ghost pre = remaining@;
        let a = remaining.remove(0);
        proof {
            assert(pre[0] == all[i as int]);
            assert(pre.drop_first() =~= all.skip(i + 1));
        }
        let keep_artist = match artist_id {
            Some(id) => a.id == id,
            None => true,
        };
        let keep_query = match &query_lower {
            Some(l) => contains_lower(a.name.as_str(), l.as_str()),
            None => true,
        };
        proof {
            assert((keep_artist && keep_query) == artist_matches(a, artist_id, q));
        }
        if keep_artist && keep_query {
            out.push(a);
        }
        proof {
            reveal(Seq::filter);
            assert(all.take(i + 1).drop_last() =~= all.take(i as int));
            assert(all.take(i + 1).last() == all[i as int]);
            assert(out@ == all.take(i + 1).filter(pred));
        }
        i = i + 1;
    }
    proof {
        assert(all.take(i as int) =~= all);
    }
    out
}

} // verus!
