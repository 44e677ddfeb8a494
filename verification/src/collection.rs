//! The song library: records keyed by their stable 64-bit identity, and
//! artists keyed by the hash of their name, each carrying their own songs.

use crate::record::{calculate_hash, kfile_identity, str_hash, Kfile, KfileView};
use std::collections::HashMap;
use vstd::prelude::*;

verus! {

broadcast use vstd::std_specs::hash::group_hash_axioms;

/// The index the library hands over: identity to record content, later
/// entries of the input winning over earlier ones.
pub open spec fn index_by_song(s: Seq<KfileView>) -> Map<u64, KfileView>
    decreases s.len(),
{
    if s.len() == 0 {
        Map::empty()
    } else {
        index_by_song(s.drop_last()).insert(kfile_identity(s.last()), s.last())
    }
}

/// A record map, seen by content.
pub open spec fn map_views(m: Map<u64, Kfile>) -> Map<u64, KfileView> {
    Map::new(|h: u64| m.dom().contains(h), |h: u64| m[h]@)
}

/// Whether any of the first `upto` records carries identity `s`.
pub open spec fn seen_identity(views: Seq<KfileView>, upto: int, s: u64) -> bool {
    exists|j: int| 0 <= j < upto && kfile_identity(views[j]) == s
}

/// The index holds exactly the identities of the records it was built from.
pub proof fn lemma_index_dom(s: Seq<KfileView>)
    ensures
        forall|h: u64| #[trigger]
            index_by_song(s).dom().contains(h) <==> seen_identity(s, s.len() as int, h),
    decreases s.len(),
{
    if s.len() > 0 {
        lemma_index_dom(s.drop_last());
        assert(index_by_song(s) == index_by_song(s.drop_last()).insert(
            kfile_identity(s.last()),
            s.last(),
        ));
        assert forall|h: u64| #[trigger]
            index_by_song(s).dom().contains(h) implies seen_identity(s, s.len() as int, h) by {
            if h == kfile_identity(s.last()) {
                assert(kfile_identity(s[s.len() - 1]) == h);
            } else {
                assert(index_by_song(s.drop_last()).dom().contains(h));
                assert(seen_identity(s.drop_last(), s.drop_last().len() as int, h));
                let j = choose|j: int|
                    0 <= j < s.drop_last().len() && kfile_identity(s.drop_last()[j]) == h;
                assert(s[j] == s.drop_last()[j]);
                assert(0 <= j < s.len() && kfile_identity(s[j]) == h);
            }
        }
        assert forall|h: u64| seen_identity(s, s.len() as int, h) implies #[trigger]
            index_by_song(s).dom().contains(h) by {
            let j = choose|j: int| 0 <= j < s.len() && kfile_identity(s[j]) == h;
            if j < s.len() - 1 {
                assert(s.drop_last()[j] == s[j]);
                assert(0 <= j < s.drop_last().len() && kfile_identity(s.drop_last()[j]) == h);
                assert(seen_identity(s.drop_last(), s.drop_last().len() as int, h));
                assert(index_by_song(s.drop_last()).dom().contains(h));
            } else {
                assert(h == kfile_identity(s.last()));
            }
        }
    }
}

/// Processing one more record extends the seen identities by exactly that
/// record's identity.
proof fn lemma_seen_step(views: Seq<KfileView>, i: int, id: u64)
    requires
        0 <= i < views.len(),
        kfile_identity(views[i]) == id,
    ensures
        forall|s: u64| #[trigger]
            seen_identity(views, i + 1, s) <==> (seen_identity(views, i, s) || s == id),
{
    assert forall|s: u64| #[trigger]
        seen_identity(views, i + 1, s) implies (seen_identity(views, i, s) || s == id) by {
        let j = choose|j: int| 0 <= j < i + 1 && kfile_identity(views[j]) == s;
        if j < i {
            assert(0 <= j < i && kfile_identity(views[j]) == s);
        }
    }
    assert forall|s: u64| (seen_identity(views, i, s) || s == id) implies #[trigger] seen_identity(
        views,
        i + 1,
        s,
    ) by {
        if s == id {
            assert(0 <= i < i + 1 && kfile_identity(views[i]) == s);
        } else {
            let j = choose|j: int| 0 <= j < i && kfile_identity(views[j]) == s;
            assert(0 <= j < i + 1 && kfile_identity(views[j]) == s);
        }
    }
}

/// One artist of the library: a name and the songs credited to it.
#[derive(Debug)]
pub struct Artist {
    /// This artist's songs, keyed by song identity.
    pub songs: HashMap<u64, Kfile>,
    /// How many songs the artist has.
    pub num_songs: usize,
    /// The artist's display name.
    pub name: String,
}

impl Artist {
    /// A new artist with no songs yet.
    pub fn new(name: String) -> (r: Artist)
        ensures
            r.songs@ == Map::<u64, Kfile>::empty(),
            r.num_songs == 0,
            r.name == name,
    {
        let songs = HashMap::new();
        Artist { songs, num_songs: 0, name }
    }
}

/// An artist entry credited with every song among the first `upto` records
/// whose artist identity matches the entry's key.
pub open spec fn credited(
    a: Artist,
    h: u64,
    views: Seq<KfileView>,
    index: Map<u64, KfileView>,
    upto: int,
) -> bool {
    &&& str_hash(a.name@) == h
    &&& a.num_songs == a.songs@.len()
    &&& map_views(a.songs@) == Map::new(
        |s: u64| seen_identity(views, upto, s) && index.dom().contains(s) && index[s].artist_hash
            == h,
        |s: u64| index[s],
    )
}

/// What a finished artist entry holds: its key is the hash of its name, its
/// song count is exact, and its songs are exactly the indexed records whose
/// artist identity matches the key.
pub open spec fn artist_ok(h: u64, a: Artist, index: Map<u64, KfileView>) -> bool {
    &&& str_hash(a.name@) == h
    &&& a.num_songs == a.songs@.len()
    &&& map_views(a.songs@) == Map::new(
        |s: u64| index.dom().contains(s) && index[s].artist_hash == h,
        |s: u64| index[s],
    )
}

/// An artist the current record does not belong to is credited unchanged.
proof fn lemma_credited_skip(
    a: Artist,
    h: u64,
    views: Seq<KfileView>,
    index: Map<u64, KfileView>,
    i: int,
    id: u64,
)
    requires
        0 <= i < views.len(),
        kfile_identity(views[i]) == id,
        credited(a, h, views, index, i),
        index.dom().contains(id) ==> index[id].artist_hash != h,
    ensures
        credited(a, h, views, index, i + 1),
{
    lemma_seen_step(views, i, id);
    assert(map_views(a.songs@) =~= Map::new(
        |s: u64| seen_identity(views, i + 1, s) && index.dom().contains(s) && index[s].artist_hash
            == h,
        |s: u64| index[s],
    ));
}

/// Inserting the current record into its own artist's songs credits that
/// artist one step further.
proof fn lemma_credited_insert(
    a: Artist,
    b: Artist,
    h: u64,
    views: Seq<KfileView>,
    index: Map<u64, KfileView>,
    i: int,
    id: u64,
    kf: Kfile,
)
    requires
        0 <= i < views.len(),
        kfile_identity(views[i]) == id,
        credited(a, h, views, index, i),
        index.dom().contains(id),
        index[id].artist_hash == h,
        kf@ == index[id],
        b.name == a.name,
        b.songs@ == a.songs@.insert(id, kf),
        b.num_songs == b.songs@.len(),
    ensures
        credited(b, h, views, index, i + 1),
{
    lemma_seen_step(views, i, id);
    assert(map_views(b.songs@) =~= map_views(a.songs@).insert(id, kf@));
    assert(map_views(b.songs@) =~= Map::new(
        |s: u64| seen_identity(views, i + 1, s) && index.dom().contains(s) && index[s].artist_hash
            == h,
        |s: u64| index[s],
    ));
}

/// A fully credited artist entry is a finished one.
proof fn lemma_credited_done(
    a: Artist,
    h: u64,
    views: Seq<KfileView>,
    index: Map<u64, KfileView>,
)
    requires
        index == index_by_song(views),
        credited(a, h, views, index, views.len() as int),
    ensures
        artist_ok(h, a, index),
{
    lemma_index_dom(views);
    assert(map_views(a.songs@) =~= Map::new(
        |s: u64| index.dom().contains(s) && index[s].artist_hash == h,
        |s: u64| index[s],
    ));
}

/// The whole library: all songs by identity, all artists by name hash.
#[derive(Debug)]
pub struct Collection {
    /// Every record, keyed by its content identity.
    pub by_song: HashMap<u64, Kfile>,
    /// Every artist, keyed by the hash of its name.
    pub by_artist: HashMap<u64, Artist>,
}

/// First pass: index every song by its identity, and create every artist
/// with an empty song map.
#[verifier::loop_isolation(false)]
fn index_songs(vec_kfile: &Vec<Kfile>) -> (r: (HashMap<u64, Kfile>, HashMap<u64, Artist>))
    ensures
        ({
            let views = vec_kfile@.map_values(|k: Kfile| k@);
            &&& map_views(r.0@) == index_by_song(views)
            &&& forall|h: u64| #[trigger]
                r.1@.dom().contains(h) <==> exists|j: int|
                    0 <= j < views.len() && str_hash(#[trigger] views[j].artist) == h
            &&& forall|h: u64| #[trigger]
                r.1@.dom().contains(h) ==> (str_hash(r.1@[h].name@) == h && r.1@[h].num_songs == 0
                    && r.1@[h].songs@ == Map::<u64, Kfile>::empty())
        }),
{
    let ghost views = vec_kfile@.map_values(|k: Kfile| k@);
    let n = vec_kfile.len();
    let mut by_song: HashMap<u64, Kfile> = HashMap::new();
    let mut by_artist: HashMap<u64, Artist> = HashMap::new();
    let mut i: usize = 0;
    while i < n
        invariant
            i <= n,
            map_views(by_song@) == index_by_song(views.take(i as int)),
            forall|h: u64| #[trigger]
                by_artist@.dom().contains(h) <==> exists|j: int|
                    0 <= j < i && str_hash(#[trigger] views[j].artist) == h,
            forall|h: u64| #[trigger]
                by_artist@.dom().contains(h) ==> (str_hash(by_artist@[h].name@) == h
                    && by_artist@[h].num_songs == 0 && by_artist@[h].songs@ == Map::<
                    u64,
                    Kfile,
                >::empty()),
        decreases n - i,
    {
        let kfc = vec_kfile[i].clone();
        let id = kfc.identity();
        let name_hash = calculate_hash(&kfc.artist);
        by_artist.insert(name_hash, Artist::new(kfc.artist.clone()));
        by_song.insert(id, kfc);
        proof {
            assert(views.take(i + 1).drop_last() =~= views.take(i as int));
            assert(views.take(i + 1).last() == views[i as int]);
            assert(map_views(by_song@) =~= index_by_song(views.take(i + 1)));
            assert forall|h: u64| #[trigger] by_artist@.dom().contains(h) implies exists|j: int|
                0 <= j < i + 1 && str_hash(#[trigger] views[j].artist) == h by {
                if h == name_hash {
                    assert(str_hash(views[i as int].artist) == h);
                } else {
                    assert(exists|j: int| 0 <= j < i && str_hash(#[trigger] views[j].artist) == h);
                }
            }
        }
        i = i + 1;
    }
    proof {
        assert(views.take(n as int) =~= views);
    }
    (by_song, by_artist)
}

/// Second pass: credit every indexed song to the artist its record names.
#[verifier::loop_isolation(false)]
#[verifier::rlimit(100)]
fn credit_songs(
    vec_kfile: &Vec<Kfile>,
    by_song: &HashMap<u64, Kfile>,
    by_artist: &mut HashMap<u64, Artist>,
)
    requires
        ({
            let views = vec_kfile@.map_values(|k: Kfile| k@);
            &&& map_views(by_song@) == index_by_song(views)
            &&& forall|h: u64| #[trigger]
                old(by_artist)@.dom().contains(h) ==> (str_hash(old(by_artist)@[h].name@) == h
                    && old(by_artist)@[h].num_songs == 0 && old(by_artist)@[h].songs@ == Map::<
                    u64,
                    Kfile,
                >::empty())
        }),
    ensures
        final(by_artist)@.dom() == old(by_artist)@.dom(),
        forall|h: u64| #[trigger]
            final(by_artist)@.dom().contains(h) ==> artist_ok(
                h,
                final(by_artist)@[h],
                index_by_song(vec_kfile@.map_values(|k: Kfile| k@)),
            ),
{
    let ghost views = vec_kfile@.map_values(|k: Kfile| k@);
    let ghost index = index_by_song(views);
    let n = vec_kfile.len();
    let mut i: usize = 0;
    proof {
        assert forall|h: u64| #[trigger] by_artist@.dom().contains(h) implies credited(
            by_artist@[h],
            h,
            views,
            index,
            0,
        ) by {
            assert(map_views(by_artist@[h].songs@) =~= Map::new(
                |s: u64| seen_identity(views, 0, s) && index.dom().contains(s)
                    && index[s].artist_hash == h,
                |s: u64| index[s],
            ));
        }
    }
    while i < n
        invariant
            i <= n,
            by_artist@.dom() == old(by_artist)@.dom(),
            forall|h: u64| #[trigger]
                by_artist@.dom().contains(h) ==> credited(by_artist@[h], h, views, index, i as int),
        decreases n - i,
    {
        let id = vec_kfile[i].identity();
        proof {
            lemma_index_dom(views);
            assert(kfile_identity(views[i as int]) == id);
            assert(seen_identity(views, views.len() as int, id));
            assert(index.dom().contains(id));
            assert(map_views(by_song@).dom().contains(id));
            assert(by_song@.contains_key(id));
        }
        let kf = by_song.get(&id).unwrap().clone();
        let ah = kf.artist_hash;
        proof {
            assert(kf@ == map_views(by_song@)[id]);
            assert(kf@ == index[id]);
        }
        let ghost pre_artist = by_artist@;
        match by_artist.remove(&ah) {
            Some(art) => {
                let mut art = art;
                let ghost art0 = art;
                art.songs.insert(id, kf);
                let c = art.songs.len();
                art.num_songs = c;
                by_artist.insert(ah, art);
                proof {
                    lemma_credited_insert(art0, art, ah, views, index, i as int, id, kf);
                    assert(by_artist@.dom() =~= pre_artist.dom());
                    assert forall|h: u64| #[trigger] by_artist@.dom().contains(h) implies credited(
                        by_artist@[h],
                        h,
                        views,
                        index,
                        i + 1,
                    ) by {
                        if h != ah {
                            assert(by_artist@[h] == pre_artist[h]);
                            lemma_credited_skip(pre_artist[h], h, views, index, i as int, id);
                        }
                    }
                }
            },
            None => {
                proof {
                    assert forall|h: u64| #[trigger] by_artist@.dom().contains(h) implies credited(
                        by_artist@[h],
                        h,
                        views,
                        index,
                        i + 1,
                    ) by {
                        lemma_credited_skip(by_artist@[h], h, views, index, i as int, id);
                    }
                }
            },
        }
        i = i + 1;
    }
    proof {
        assert forall|h: u64| #[trigger] by_artist@.dom().contains(h) implies artist_ok(
            h,
            by_artist@[h],
            index,
        ) by {
            lemma_credited_done(by_artist@[h], h, views, index);
        }
    }
}

impl Collection {
    /// Build the library from the records the indexer found: each song
    /// keyed by its identity, each artist keyed by its name hash and
    /// carrying exactly its own songs.
    pub fn new(vec_kfile: Vec<Kfile>) -> (r: Collection)
        ensures
            ({
                let views = vec_kfile@.map_values(|k: Kfile| k@);
                let index = index_by_song(views);
                &&& map_views(r.by_song@) == index
                &&& forall|h: u64| #[trigger]
                    r.by_artist@.dom().contains(h) <==> exists|i: int|
                        0 <= i < views.len() && str_hash(#[trigger] views[i].artist) == h
                &&& forall|h: u64| #[trigger]
                    r.by_artist@.dom().contains(h) ==> artist_ok(h, r.by_artist@[h], index)
            }),
    {
        let (by_song, mut by_artist) = index_songs(&vec_kfile);
        credit_songs(&vec_kfile, &by_song, &mut by_artist);
        Collection { by_song, by_artist }
    }
}


/// Whether `v` holds `x`.
fn contains_key_vec(v: &Vec<u64>, x: u64) -> (r: bool)
    ensures
        r == v@.contains(x),
{
    let n = v.len();
    let mut i: usize = 0;
    while i < n
        invariant
            n == v@.len(),
            i <= n,
            forall|k: int| 0 <= k < i ==> v@[k] != x,
        decreases n - i,
    {
        if v[i] == x {
            return true;
        }
        i = i + 1;
    }
    false
}

/// The refresh diff: which known keys no longer name a valid song, and
/// which valid songs are not yet known. The first result holds exactly the
/// existing keys whose identity no valid record carries; the second holds
/// exactly the valid records whose identity is not among the existing keys,
/// in their given order.
#[verifier::loop_isolation(false)]
pub fn collection_diff(existing_keys: Vec<u64>, valid_kfiles: Vec<Kfile>) -> (r: (
    Vec<u64>,
    Vec<Kfile>,
))
    ensures
        ({
            let ids = valid_kfiles@.map_values(|k: Kfile| kfile_identity(k@));
            &&& r.0@ == existing_keys@.filter(|k: u64| !ids.contains(k))
            &&& r.1@ == valid_kfiles@.filter(
                |k: Kfile| !existing_keys@.contains(kfile_identity(k@)),
            )
        }),
{
    let ghost ids = valid_kfiles@.map_values(|k: Kfile| kfile_identity(k@));
    let ghost remove_pred = |k: u64| !ids.contains(k);
    let ghost add_pred = |k: Kfile| !existing_keys@.contains(kfile_identity(k@));

    // The identities of every valid record, for membership tests.
    let n = valid_kfiles.len();
    let mut valid_ids: Vec<u64> = Vec::new();
    let mut i: usize = 0;
    while i < n
        invariant
            i <= n,
            valid_ids@ == ids.take(i as int),
        decreases n - i,
    {
        valid_ids.push(valid_kfiles[i].identity());
        proof {
            assert(valid_ids@ =~= ids.take(i + 1));
        }
        i = i + 1;
    }
    proof {
        assert(ids.take(n as int) =~= ids);
    }

    // Existing keys that no valid record carries any more.
    let m = existing_keys.len();
    let mut removals: Vec<u64> = Vec::new();
    let mut i: usize = 0;
    proof {
        reveal(Seq::filter);
        assert(existing_keys@.take(0).filter(remove_pred) =~= Seq::<u64>::empty());
    }
    while i < m
        invariant
            i <= m,
            removals@ == existing_keys@.take(i as int).filter(remove_pred),
        decreases m - i,
    {
        let key = existing_keys[i];
        if !contains_key_vec(&valid_ids, key) {
            removals.push(key);
        }
        proof {
            reveal(Seq::filter);
            assert(existing_keys@.take(i + 1).drop_last() =~= existing_keys@.take(i as int));
            assert(existing_keys@.take(i + 1).last() == existing_keys@[i as int]);
            assert(removals@ == existing_keys@.take(i + 1).filter(remove_pred));
        }
        i = i + 1;
    }
    proof {
        assert(existing_keys@.take(m as int) =~= existing_keys@);
    }

    // Valid records whose identity is not yet known.
    let ghost all = valid_kfiles@;
    let mut remaining = valid_kfiles;
    let mut additions: Vec<Kfile> = Vec::new();
    let mut i: usize = 0;
    proof {
        reveal(Seq::filter);
        assert(all.take(0).filter(add_pred) =~= Seq::<Kfile>::empty());
    }
    while remaining.len() > 0
        invariant
            remaining@ =~= all.skip(i as int),
            i + remaining@.len() == all.len(),
            additions@ == all.take(i as int).filter(add_pred),
        decreases remaining.len(),
    {
        let ghost pre = remaining@;
        let kfile = remaining.remove(0);
        proof {
            assert(pre[0] == all[i as int]);
            assert(pre.drop_first() =~= all.skip(i + 1));
        }
        let id = kfile.identity();
        if !contains_key_vec(&existing_keys, id) {
            additions.push(kfile);
        }
        proof {
            reveal(Seq::filter);
            assert(all.take(i + 1).drop_last() =~= all.take(i as int));
            assert(all.take(i + 1).last() == all[i as int]);
            assert(additions@ == all.take(i + 1).filter(add_pred));
        }
        i = i + 1;
    }
    proof {
        assert(all.take(i as int) =~= all);
    }

    (removals, additions)
}

} // verus!
