//! Playable records: the identity + file-location unit representing one song.
//!
//! A record's 64-bit identity is content-addressed: it is computed only from
//! the record's fields, so two records with identical fields always hash
//! identically.

use crate::parse::{song_parse, song_parse_spec};
use vstd::prelude::*;

verus! {

/// FNV-1a offset basis.
pub const HASH_BASIS: u64 = 0xcbf2_9ce4_8422_2325;

/// FNV-1a prime.
pub const HASH_PRIME: u64 = 0x0000_0100_0000_01b3;

/// One FNV-1a round: fold one character code into the running hash.
pub open spec fn hash_step(h: u64, c: u64) -> u64 {
    (((h ^ c) as nat * HASH_PRIME as nat) % 0x1_0000_0000_0000_0000) as u64
}

/// FNV-1a over a sequence of characters, starting from hash state `h`.
pub open spec fn hash_chars(s: Seq<char>, h: u64) -> u64
    decreases s.len(),
{
    if s.len() == 0 {
        h
    } else {
        hash_chars(s.drop_first(), hash_step(h, s[0] as u64))
    }
}

/// The hash of one string on its own.
pub open spec fn str_hash(s: Seq<char>) -> u64 {
    hash_chars(s, HASH_BASIS)
}

/// Fold one string into a running record hash, with a separator so that
/// field boundaries contribute to the identity.
pub open spec fn hash_field(h: u64, s: Seq<char>) -> u64 {
    hash_step(hash_chars(s, h), 0x1f)
}

/// Compute the FNV-1a hash of `s`, continuing from state `h`.
fn hash_chars_exec(s: &str, h: u64) -> (r: u64)
    ensures
        r == hash_chars(s@, h),
{
    let n = s.unicode_len();
    let mut acc = h;
    let mut i: usize = 0;
    proof {
        assert(s@.skip(0) =~= s@);
    }
    while i < n
        invariant
            n == s@.len(),
            i <= n,
            hash_chars(s@, h) == hash_chars(s@.skip(i as int), acc),
        decreases n - i,
    {
        let c = s.get_char(i);
        proof {
            assert(s@.skip(i as int).len() > 0);
            assert(s@.skip(i as int)[0] == s@[i as int]);
            assert(s@.skip(i as int).drop_first() =~= s@.skip(i + 1));
        }
        acc = (acc ^ (c as u64)).wrapping_mul(HASH_PRIME);
        i = i + 1;
    }
    proof {
        assert(s@.skip(n as int) =~= Seq::<char>::empty());
    }
    acc
}

/// Content hash of one string: the stable identity used for artists.
///
/// Deterministic: it depends only on the characters of `s`.
pub fn calculate_hash(s: &String) -> (r: u64)
    ensures
        r == str_hash(s@),
{
    hash_chars_exec(s.as_str(), HASH_BASIS)
}

/// An immutable value identifying one playable song: paths to its audio and
/// graphics-stream files plus display metadata.
#[derive(Debug, PartialEq, Eq)]
pub struct Kfile {
    /// Path of the audio file.
    pub mp3_path: String,
    /// Path of the graphics-stream file.
    pub cdg_path: String,
    /// Display artist name.
    pub artist: String,
    /// Stable identity of the artist name: `str_hash(artist)`.
    pub artist_hash: u64,
    /// Display title.
    pub song: String,
}

/// The mathematical content of a record: its fields, as sequences of
/// characters.
pub struct KfileView {
    /// Path of the audio file.
    pub mp3_path: Seq<char>,
    /// Path of the graphics-stream file.
    pub cdg_path: Seq<char>,
    /// Display artist name.
    pub artist: Seq<char>,
    /// Stable identity of the artist name.
    pub artist_hash: u64,
    /// Display title.
    pub song: Seq<char>,
}

impl View for Kfile {
    type V = KfileView;

    open spec fn view(&self) -> KfileView {
        KfileView {
            mp3_path: self.mp3_path@,
            cdg_path: self.cdg_path@,
            artist: self.artist@,
            artist_hash: self.artist_hash,
            song: self.song@,
        }
    }
}

impl Clone for Kfile {
    /// An exact copy: the clone's content equals the original's.
    fn clone(&self) -> (r: Kfile)
        ensures
            r@ == self@,
    {
        Kfile {
            mp3_path: self.mp3_path.clone(),
            cdg_path: self.cdg_path.clone(),
            artist: self.artist.clone(),
            artist_hash: self.artist_hash,
            song: self.song.clone(),
        }
    }
}

/// The content identity of a record: a fold of all its content fields.
pub open spec fn kfile_identity(k: KfileView) -> u64 {
    hash_field(
        hash_field(hash_field(hash_field(HASH_BASIS, k.mp3_path), k.cdg_path), k.artist),
        k.song,
    )
}

/// A well-formed record carries the hash of its own artist field.
pub open spec fn kfile_wf(k: KfileView) -> bool {
    k.artist_hash == str_hash(k.artist)
}

/// The part of a path after its last separator: the file's own name.
pub open spec fn base_name(p: Seq<char>) -> Seq<char>
    decreases p.len(),
{
    if p.len() == 0 {
        p
    } else if p.last() == '/' {
        Seq::empty()
    } else {
        base_name(p.drop_last()).push(p.last())
    }
}

/// The artist a record takes when the audio file carries no tag: the parsed
/// artist of the file name, or a placeholder where parsing fails.
pub open spec fn fallback_artist(path: Seq<char>, fmt: Seq<char>) -> Seq<char> {
    match song_parse_spec(base_name(path), fmt) {
        Some(p) => p.1,
        None => "<None>"@,
    }
}

/// The title a record takes when the audio file carries no tag: the parsed
/// title of the file name, or the whole file name where parsing fails.
pub open spec fn fallback_title(path: Seq<char>, fmt: Seq<char>) -> Seq<char> {
    match song_parse_spec(base_name(path), fmt) {
        Some(p) => p.0,
        None => base_name(path),
    }
}

/// If everything at or after `j` is free of separators, and `j` sits just
/// past one (or at the start), then the base name is the suffix from `j`.
proof fn lemma_base_name_suffix(p: Seq<char>, j: int)
    requires
        0 <= j <= p.len(),
        j == 0 || p[j - 1] == '/',
        forall|k: int| j <= k < p.len() ==> p[k] != '/',
    ensures
        base_name(p) == p.subrange(j, p.len() as int),
    decreases p.len() - j,
{
    if j == p.len() {
        if p.len() == 0 {
            assert(base_name(p) =~= p.subrange(j, p.len() as int));
        } else {
            assert(p.last() == '/');
            assert(base_name(p) =~= p.subrange(j, p.len() as int));
        }
    } else {
        assert(p.last() != '/');
        lemma_base_name_suffix(p.drop_last(), j);
        assert(p.drop_last().subrange(j, p.drop_last().len() as int).push(p.last()) =~= p.subrange(
            j,
            p.len() as int,
        ));
    }
}

/// The file's own name: everything after the last path separator.
fn base_name_exec(p: &str) -> (r: &str)
    ensures
        r@ == base_name(p@),
{
    let n = p.unicode_len();
    let mut j = n;
    while j > 0
        invariant
            n == p@.len(),
            j <= n,
            forall|k: int| j <= k < n ==> p@[k] != '/',
        ensures
            j <= n,
            j == 0 || p@[j - 1] == '/',
            forall|k: int| j <= k < n ==> p@[k] != '/',
        decreases j,
    {
        if p.get_char(j - 1) == '/' {
            break ;
        }
        j = j - 1;
    }
    proof {
        lemma_base_name_suffix(p@, j as int);
    }
    p.substring_char(j, n)
}

impl Kfile {
    /// The stable, content-addressed 64-bit identity of this record.
    ///
    /// Two records with identical path/title/artist fields always hash
    /// identically.
    pub fn identity(&self) -> (r: u64)
        ensures
            r == kfile_identity(self@),
    {
        let mut h = hash_chars_exec(self.mp3_path.as_str(), HASH_BASIS);
        h = (h ^ 0x1f).wrapping_mul(HASH_PRIME);
        h = hash_chars_exec(self.cdg_path.as_str(), h);
        h = (h ^ 0x1f).wrapping_mul(HASH_PRIME);
        h = hash_chars_exec(self.artist.as_str(), h);
        h = (h ^ 0x1f).wrapping_mul(HASH_PRIME);
        h = hash_chars_exec(self.song.as_str(), h);
        h = (h ^ 0x1f).wrapping_mul(HASH_PRIME);
        h
    }

    /// Build a record for the song files at `path` (given without its
    /// extension): the audio and graphics paths gain their extensions, and
    /// the artist and title come from the audio file's tags where present,
    /// else from parsing the file's base name against `song_format`, else
    /// from placeholders.
    pub fn new(
        path: &String,
        song_format: &String,
        tag_artist: Option<String>,
        tag_song: Option<String>,
    ) -> (r: Kfile)
        ensures
            r@.mp3_path == path@ + ".mp3"@,
            r@.cdg_path == path@ + ".cdg"@,
            r@.artist == (match tag_artist {
                Some(s) => s@,
                None => fallback_artist(path@, song_format@),
            }),
            r@.song == (match tag_song {
                Some(s) => s@,
                None => fallback_title(path@, song_format@),
            }),
            kfile_wf(r@),
    {
        let mut mp3_path = path.as_str().to_owned();
        mp3_path.append(".mp3");
        let mut cdg_path = path.as_str().to_owned();
        cdg_path.append(".cdg");
        let file_name = base_name_exec(path.as_str());

        let parsed = song_parse(file_name, song_format.as_str());
        let (parsed_artist, parsed_song): (String, String) = match parsed {
            Some(p) => (p.artist, p.title),
            None => ("<None>".to_owned(), file_name.to_owned()),
        };

        let artist = match tag_artist {
            Some(s) => s,
            None => parsed_artist,
        };
        let song = match tag_song {
            Some(s) => s,
            None => parsed_song,
        };

        let artist_hash = calculate_hash(&artist);

        Kfile { mp3_path, cdg_path, artist, artist_hash, song }
    }
}

impl Default for Kfile {
    /// The empty record: empty paths and names, with a consistent artist hash.
    fn default() -> (r: Kfile)
        ensures
            r.mp3_path@ =~= Seq::<char>::empty(),
            r.cdg_path@ =~= Seq::<char>::empty(),
            r.artist@ =~= Seq::<char>::empty(),
            r.song@ =~= Seq::<char>::empty(),
            kfile_wf(r@),
    {
        let empty_hash = calculate_hash(&String::new());
        Kfile {
            mp3_path: String::new(),
            cdg_path: String::new(),
            artist: String::new(),
            artist_hash: empty_hash,
            song: String::new(),
        }
    }
}

} // verus!
