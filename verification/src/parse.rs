//! Filename parsing: recovering artist and title from a song file's name,
//! guided by a format template.
//!
//! A template holds an `[Artist]` marker, a `[Title]` marker and optionally
//! a `[*]` wildcard, separated by literal delimiter text (for example
//! `[Artist] - [Title]`). Parsing locates the markers in the template,
//! takes the literal text between them as delimiters, strips the leading
//! and trailing literals from the file name, and splits what is left at the
//! delimiters.

use vstd::prelude::*;

verus! {

/// Whether `n` occurs in `h` starting exactly at `i`.
pub open spec fn matches_at(h: Seq<char>, n: Seq<char>, i: int) -> bool {
    0 <= i && i + n.len() <= h.len() && h.subrange(i, i + n.len() as int) == n
}

/// The first index at or after `i` where `n` occurs in `h`; `None` when it
/// never does. An empty needle matches immediately.
pub open spec fn find_from(h: Seq<char>, n: Seq<char>, i: int) -> Option<int>
    decreases h.len() - i,
{
    if n.len() == 0 {
        Some(i)
    } else if i + n.len() <= h.len() {
        if h.subrange(i, i + n.len() as int) == n {
            Some(i)
        } else {
            find_from(h, n, i + 1)
        }
    } else {
        None
    }
}

/// What a successful search means: a match at the index found, none earlier.
pub proof fn lemma_find_from_props(h: Seq<char>, n: Seq<char>, from: int)
    requires
        0 <= from <= h.len(),
    ensures
        find_from(h, n, from) matches Some(i) ==> from <= i && i + n.len() <= h.len() && (n.len()
            > 0 ==> matches_at(h, n, i)),
    decreases h.len() - from,
{
    if n.len() == 0 {
    } else if from + n.len() <= h.len() {
        if h.subrange(from, from + n.len() as int) == n {
        } else {
            lemma_find_from_props(h, n, from + 1);
        }
    }
}

/// Whether `n` occurs at `i` of `h`, checked character by character.
fn match_at_exec(h: &str, n: &str, i: usize, hl: usize, nl: usize) -> (r: bool)
    requires
        hl == h@.len(),
        nl == n@.len(),
        i + nl <= hl,
    ensures
        r == (h@.subrange(i as int, i + nl) == n@),
{
    let mut j: usize = 0;
    while j < nl
        invariant
            hl == h@.len(),
            nl == n@.len(),
            i + nl <= hl,
            j <= nl,
            forall|k: int| 0 <= k < j ==> h@[i + k] == n@[k],
        decreases nl - j,
    {
        if h.get_char(i + j) != n.get_char(j) {
            proof {
                assert(h@.subrange(i as int, i + nl)[j as int] == h@[i + j]);
            }
            return false;
        }
        j = j + 1;
    }
    proof {
        assert(h@.subrange(i as int, i + nl) =~= n@);
    }
    true
}

/// Find the first occurrence of `n` at or after `from` in `h`.
pub(crate) fn find_str_from(h: &str, n: &str, from: usize) -> (r: Option<usize>)
    requires
        from <= h@.len(),
    ensures
        match r {
            Some(i) => find_from(h@, n@, from as int) == Some(i as int),
            None => find_from(h@, n@, from as int) is None,
        },
{
    let hl = h.unicode_len();
    let nl = n.unicode_len();
    if nl == 0 {
        return Some(from);
    }
    if nl > hl || from > hl - nl {
        return None;
    }
    let mut i = from;
    while i <= hl - nl
        invariant
            hl == h@.len(),
            nl == n@.len(),
            0 < nl <= hl,
            from <= i,
            i <= hl - nl + 1,
            find_from(h@, n@, from as int) == find_from(h@, n@, i as int),
        decreases hl - i,
    {
        if match_at_exec(h, n, i, hl, nl) {
            return Some(i);
        }
        i = i + 1;
    }
    None
}


/// The artist marker of a format template.
pub open spec fn artist_marker() -> Seq<char> {
    "[Artist]"@
}

/// The title marker of a format template.
pub open spec fn title_marker() -> Seq<char> {
    "[Title]"@
}

/// The wildcard marker of a format template.
pub open spec fn star_marker() -> Seq<char> {
    "[*]"@
}

/// The relative order of the markers in a format template.
#[derive(Debug, PartialEq, Eq, Structural, Clone, Copy)]
pub enum ParseOrder {
    /// `[*] ... [Artist] ... [Title]`
    RemainingArtistTitle,
    /// `[*] ... [Title] ... [Artist]`
    RemainingTitleArtist,
    /// `[Artist] ... [Title] ... [*]`
    ArtistTitleRemaining,
    /// `[Artist] ... [*] ... [Title]`
    ArtistRemainingTitle,
    /// `[Title] ... [Artist] ... [*]`
    TitleArtistRemaining,
    /// `[Title] ... [*] ... [Artist]`
    TitleRemainingArtist,
    /// `[Artist] ... [Title]`
    ArtistTitle,
    /// `[Title] ... [Artist]`
    TitleArtist,
}

/// Which order the marker positions dictate.
pub open spec fn parse_order(a: int, t: int, rem: Option<int>) -> ParseOrder {
    match rem {
        Some(r) => {
            if r < a && r < t {
                if a < t {
                    ParseOrder::RemainingArtistTitle
                } else {
                    ParseOrder::RemainingTitleArtist
                }
            } else if a < r && a < t {
                if r < t {
                    ParseOrder::ArtistRemainingTitle
                } else {
                    ParseOrder::ArtistTitleRemaining
                }
            } else if r < a {
                ParseOrder::TitleRemainingArtist
            } else {
                ParseOrder::TitleArtistRemaining
            }
        },
        None => {
            if t < a {
                ParseOrder::TitleArtist
            } else {
                ParseOrder::ArtistTitle
            }
        },
    }
}

/// The slice of `s` from `a` to `b`, or `None` where the bounds are bad.
pub open spec fn slice_of(s: Seq<char>, a: int, b: int) -> Option<Seq<char>> {
    if 0 <= a <= b <= s.len() {
        Some(s.subrange(a, b))
    } else {
        None
    }
}

/// The literal text the template puts before its first marker, if any.
pub open spec fn delim_start(fmt: Seq<char>, order: ParseOrder, a: int, t: int, r: int) -> Option<
    Seq<char>,
> {
    match order {
        ParseOrder::RemainingArtistTitle | ParseOrder::RemainingTitleArtist => {
            if r > 0 {
                Some(fmt.subrange(0, r))
            } else {
                None
            }
        },
        ParseOrder::TitleArtistRemaining | ParseOrder::TitleRemainingArtist
            | ParseOrder::TitleArtist => {
            if t > 0 {
                Some(fmt.subrange(0, t))
            } else {
                None
            }
        },
        ParseOrder::ArtistRemainingTitle | ParseOrder::ArtistTitleRemaining
            | ParseOrder::ArtistTitle => {
            if a > 0 {
                Some(fmt.subrange(0, a))
            } else {
                None
            }
        },
    }
}

/// The literal text the template puts after its last marker, if any.
pub open spec fn delim_end(fmt: Seq<char>, order: ParseOrder, a: int, t: int, r: int) -> Option<
    Seq<char>,
> {
    let al = artist_marker().len() as int;
    let tl = title_marker().len() as int;
    let rl = star_marker().len() as int;
    match order {
        ParseOrder::RemainingArtistTitle | ParseOrder::ArtistRemainingTitle
            | ParseOrder::ArtistTitle => {
            if t + tl < fmt.len() {
                Some(fmt.subrange(t + tl, fmt.len() as int))
            } else {
                None
            }
        },
        ParseOrder::RemainingTitleArtist | ParseOrder::TitleRemainingArtist
            | ParseOrder::TitleArtist => {
            if a + al < fmt.len() {
                Some(fmt.subrange(a + al, fmt.len() as int))
            } else {
                None
            }
        },
        ParseOrder::TitleArtistRemaining | ParseOrder::ArtistTitleRemaining => {
            if r + rl < fmt.len() {
                Some(fmt.subrange(r + rl, fmt.len() as int))
            } else {
                None
            }
        },
    }
}

/// The literal text between the first two markers. Bad bounds (overlapping
/// markers) make the whole parse fail.
pub open spec fn delim_1(fmt: Seq<char>, order: ParseOrder, a: int, t: int, r: int) -> Option<
    Seq<char>,
> {
    let al = artist_marker().len() as int;
    let tl = title_marker().len() as int;
    let rl = star_marker().len() as int;
    match order {
        ParseOrder::RemainingArtistTitle => slice_of(fmt, r + rl, a),
        ParseOrder::RemainingTitleArtist => slice_of(fmt, r + rl, t),
        ParseOrder::TitleArtistRemaining => slice_of(fmt, t + tl, a),
        ParseOrder::TitleRemainingArtist => slice_of(fmt, t + tl, r),
        ParseOrder::ArtistRemainingTitle => slice_of(fmt, a + al, r),
        ParseOrder::ArtistTitleRemaining => slice_of(fmt, a + al, t),
        ParseOrder::ArtistTitle => slice_of(fmt, a + al, t),
        ParseOrder::TitleArtist => slice_of(fmt, t + tl, a),
    }
}

/// The literal text between the last two markers, where the template has
/// three. `Some(None)` means the order has no second delimiter; `None`
/// means the bounds were bad and the whole parse fails.
pub open spec fn delim_2(fmt: Seq<char>, order: ParseOrder, a: int, t: int, r: int) -> Option<
    Option<Seq<char>>,
> {
    let al = artist_marker().len() as int;
    let tl = title_marker().len() as int;
    let rl = star_marker().len() as int;
    let d = match order {
        ParseOrder::RemainingArtistTitle => slice_of(fmt, a + al, t),
        ParseOrder::RemainingTitleArtist => slice_of(fmt, t + tl, a),
        ParseOrder::TitleArtistRemaining => slice_of(fmt, a + al, r),
        ParseOrder::TitleRemainingArtist => slice_of(fmt, r + rl, a),
        ParseOrder::ArtistRemainingTitle => slice_of(fmt, r + rl, t),
        ParseOrder::ArtistTitleRemaining => slice_of(fmt, t + tl, r),
        ParseOrder::ArtistTitle => Some(Seq::empty()),
        ParseOrder::TitleArtist => Some(Seq::empty()),
    };
    match order {
        ParseOrder::ArtistTitle | ParseOrder::TitleArtist => Some(None),
        _ => match d {
            Some(x) => Some(Some(x)),
            None => None,
        },
    }
}

/// `s` with the first occurrence of `n` removed, if there is one.
pub open spec fn remove_first(s: Seq<char>, n: Seq<char>) -> Seq<char> {
    match find_from(s, n, 0) {
        Some(i) => s.subrange(0, i) + s.subrange(i + n.len(), s.len() as int),
        None => s,
    }
}

/// The `(title, artist)` pair read off around a single delimiter.
pub open spec fn extract_one(f: Seq<char>, order: ParseOrder, i1: int, l1: int) -> (Seq<char>, Seq<
    char,
>) {
    match order {
        ParseOrder::TitleArtist => (f.subrange(0, i1), f.subrange(i1 + l1, f.len() as int)),
        _ => (f.subrange(i1 + l1, f.len() as int), f.subrange(0, i1)),
    }
}

/// The `(title, artist)` pair read off around two delimiters.
pub open spec fn extract_two(
    f: Seq<char>,
    order: ParseOrder,
    i1: int,
    l1: int,
    i2: int,
    l2: int,
) -> (Seq<char>, Seq<char>) {
    match order {
        ParseOrder::RemainingArtistTitle => (
            f.subrange(i2 + l2, f.len() as int),
            f.subrange(i1 + l1, i2),
        ),
        ParseOrder::RemainingTitleArtist => (
            f.subrange(i1 + l1, i2),
            f.subrange(i2 + l2, f.len() as int),
        ),
        ParseOrder::TitleArtistRemaining => (f.subrange(0, i1), f.subrange(i1 + l1, i2)),
        ParseOrder::TitleRemainingArtist => (
            f.subrange(0, i1),
            f.subrange(i2 + l2, f.len() as int),
        ),
        ParseOrder::ArtistRemainingTitle => (
            f.subrange(i2 + l2, f.len() as int),
            f.subrange(0, i1),
        ),
        ParseOrder::ArtistTitleRemaining => (f.subrange(i1 + l1, i2), f.subrange(0, i1)),
        _ => (f.subrange(0, i1), f.subrange(i1 + l1, f.len() as int)),
    }
}

/// What parsing a file name against a format template yields: the title and
/// artist text, or `None` where a marker is missing, a delimiter cannot be
/// found in the name, or the template's literal text does not fit the name.
pub open spec fn song_parse_spec(file: Seq<char>, fmt: Seq<char>) -> Option<(Seq<char>, Seq<char>)> {
    match (find_from(fmt, artist_marker(), 0), find_from(fmt, title_marker(), 0)) {
        (Some(a), Some(t)) => {
            let rem = find_from(fmt, star_marker(), 0);
            let order = parse_order(a, t, rem);
            let r = match rem {
                Some(x) => x,
                None => 0,
            };
            match (delim_1(fmt, order, a, t, r), delim_2(fmt, order, a, t, r)) {
                (Some(d1), Some(d2o)) => {
                    let f1 = match delim_start(fmt, order, a, t, r) {
                        Some(s0) => remove_first(file, s0),
                        None => file,
                    };
                    match delim_end(fmt, order, a, t, r) {
                        Some(e) => {
                            if e.len() <= f1.len() {
                                song_parse_tail(
                                    f1.subrange(0, f1.len() - e.len()),
                                    order,
                                    d1,
                                    d2o,
                                )
                            } else {
                                None
                            }
                        },
                        None => song_parse_tail(f1, order, d1, d2o),
                    }
                },
                _ => None,
            }
        },
        _ => None,
    }
}

/// The split of the trimmed name at the delimiters.
pub open spec fn song_parse_tail(
    f: Seq<char>,
    order: ParseOrder,
    d1: Seq<char>,
    d2o: Option<Seq<char>>,
) -> Option<(Seq<char>, Seq<char>)> {
    match find_from(f, d1, 0) {
        Some(i1) => {
            match d2o {
                Some(d2) => {
                    match find_from(f, d2, i1 + d1.len()) {
                        Some(i2) => Some(
                            extract_two(f, order, i1, d1.len() as int, i2, d2.len() as int),
                        ),
                        None => None,
                    }
                },
                None => Some(extract_one(f, order, i1, d1.len() as int)),
            }
        },
        None => None,
    }
}


/// A parsed file name: its title and artist text.
pub struct ParseResult {
    /// The title text.
    pub title: String,
    /// The artist text.
    pub artist: String,
}

/// `s` with the first occurrence of `n` removed, if there is one.
fn remove_first_exec(s: &str, n: &str) -> (r: String)
    ensures
        r@ == remove_first(s@, n@),
{
    let sl = s.unicode_len();
    let nl = n.unicode_len();
    match find_str_from(s, n, 0) {
        Some(i) => {
            proof {
                lemma_find_from_props(s@, n@, 0);
            }
            let mut out = s.substring_char(0, i).to_owned();
            out.append(s.substring_char(i + nl, sl));
            out
        },
        None => s.to_owned(),
    }
}

/// Parse a file name against a format template, yielding its title and
/// artist.
///
/// Mirrors `song_parse_spec` exactly: `None` where the template lacks a
/// marker, where a delimiter cannot be found in the name, or where the
/// template's literal text around the markers does not fit the name.
#[verifier::rlimit(100)]
pub fn song_parse(file_name: &str, song_format: &str) -> (r: Option<ParseResult>)
    ensures
        ({
            let sp = song_parse_spec(file_name@, song_format@);
            match r {
                Some(pr) => sp matches Some(p) && pr.title@ == p.0 && pr.artist@ == p.1,
                None => sp is None,
            }
        }),
{
    let fmt = song_format;
    let fl = fmt.unicode_len();
    let am = "[Artist]";
    let tm = "[Title]";
    let sm = "[*]";
    let al = am.unicode_len();
    let tl = tm.unicode_len();
    let rl = sm.unicode_len();
    let a_o = find_str_from(fmt, am, 0);
    let t_o = find_str_from(fmt, tm, 0);
    let (a, t) = match (a_o, t_o) {
        (Some(a), Some(t)) => (a, t),
        _ => {
            return None;
        },
    };
    let rem_o = find_str_from(fmt, sm, 0);
    proof {
        lemma_find_from_props(fmt@, am@, 0);
        lemma_find_from_props(fmt@, tm@, 0);
        lemma_find_from_props(fmt@, sm@, 0);
    }
    let ghost rem_spec: Option<int> = match rem_o {
        Some(x) => Some(x as int),
        None => None,
    };
    let order = match rem_o {
        Some(r) => {
            if r < a && r < t {
                if a < t {
                    ParseOrder::RemainingArtistTitle
                } else {
                    ParseOrder::RemainingTitleArtist
                }
            } else if a < r && a < t {
                if r < t {
                    ParseOrder::ArtistRemainingTitle
                } else {
                    ParseOrder::ArtistTitleRemaining
                }
            } else if r < a {
                ParseOrder::TitleRemainingArtist
            } else {
                ParseOrder::TitleArtistRemaining
            }
        },
        None => {
            if t < a {
                ParseOrder::TitleArtist
            } else {
                ParseOrder::ArtistTitle
            }
        },
    };
    proof {
        assert(order == parse_order(a as int, t as int, rem_spec));
    }
    let r_idx = match rem_o {
        Some(x) => x,
        None => 0,
    };
    let (x1, y1) = match order {
        ParseOrder::RemainingArtistTitle => (r_idx + rl, a),
        ParseOrder::RemainingTitleArtist => (r_idx + rl, t),
        ParseOrder::TitleArtistRemaining => (t + tl, a),
        ParseOrder::TitleRemainingArtist => (t + tl, r_idx),
        ParseOrder::ArtistRemainingTitle => (a + al, r_idx),
        ParseOrder::ArtistTitleRemaining => (a + al, t),
        ParseOrder::ArtistTitle => (a + al, t),
        ParseOrder::TitleArtist => (t + tl, a),
    };
    if x1 > y1 || y1 > fl {
        return None;
    }
    let d1 = fmt.substring_char(x1, y1);
    let d2: Option<&str> = match order {
        ParseOrder::ArtistTitle | ParseOrder::TitleArtist => None,
        _ => {
            let (x2, y2) = match order {
                ParseOrder::RemainingArtistTitle => (a + al, t),
                ParseOrder::RemainingTitleArtist => (t + tl, a),
                ParseOrder::TitleArtistRemaining => (a + al, r_idx),
                ParseOrder::TitleRemainingArtist => (r_idx + rl, a),
                ParseOrder::ArtistRemainingTitle => (r_idx + rl, t),
                ParseOrder::ArtistTitleRemaining => (t + tl, r_idx),
                _ => (0, 0),
            };
            if x2 > y2 || y2 > fl {
                return None;
            }
            Some(fmt.substring_char(x2, y2))
        },
    };
    let ds: Option<&str> = match order {
        ParseOrder::RemainingArtistTitle | ParseOrder::RemainingTitleArtist => {
            if r_idx > 0 {
                Some(fmt.substring_char(0, r_idx))
            } else {
                None
            }
        },
        ParseOrder::TitleArtistRemaining | ParseOrder::TitleRemainingArtist
            | ParseOrder::TitleArtist => {
            if t > 0 {
                Some(fmt.substring_char(0, t))
            } else {
                None
            }
        },
        ParseOrder::ArtistRemainingTitle | ParseOrder::ArtistTitleRemaining
            | ParseOrder::ArtistTitle => {
            if a > 0 {
                Some(fmt.substring_char(0, a))
            } else {
                None
            }
        },
    };
    let de: Option<&str> = match order {
        ParseOrder::RemainingArtistTitle | ParseOrder::ArtistRemainingTitle
            | ParseOrder::ArtistTitle => {
            if t + tl < fl {
                Some(fmt.substring_char(t + tl, fl))
            } else {
                None
            }
        },
        ParseOrder::RemainingTitleArtist | ParseOrder::TitleRemainingArtist
            | ParseOrder::TitleArtist => {
            if a + al < fl {
                Some(fmt.substring_char(a + al, fl))
            } else {
                None
            }
        },
        ParseOrder::TitleArtistRemaining | ParseOrder::ArtistTitleRemaining => {
            if r_idx + rl < fl {
                Some(fmt.substring_char(r_idx + rl, fl))
            } else {
                None
            }
        },
    };
    let f1: String = match ds {
        Some(s0) => remove_first_exec(file_name, s0),
        None => file_name.to_owned(),
    };
    let f1l = f1.as_str().unicode_len();
    let f2: String = match de {
        Some(e) => {
            let el = e.unicode_len();
            if el > f1l {
                return None;
            }
            f1.as_str().substring_char(0, f1l - el).to_owned()
        },
        None => f1,
    };
    let f2s = f2.as_str();
    let f2l = f2s.unicode_len();
    let i1 = match find_str_from(f2s, d1, 0) {
        Some(i) => i,
        None => {
            return None;
        },
    };
    let l1 = d1.unicode_len();
    proof {
        lemma_find_from_props(f2s@, d1@, 0);
    }
    match d2 {
        Some(d2s) => {
            let i2 = match find_str_from(f2s, d2s, i1 + l1) {
                Some(i) => i,
                None => {
                    return None;
                },
            };
            let l2 = d2s.unicode_len();
            proof {
                lemma_find_from_props(f2s@, d2s@, i1 + l1);
            }
            let (title, artist) = match order {
                ParseOrder::RemainingArtistTitle => (
                    f2s.substring_char(i2 + l2, f2l),
                    f2s.substring_char(i1 + l1, i2),
                ),
                ParseOrder::RemainingTitleArtist => (
                    f2s.substring_char(i1 + l1, i2),
                    f2s.substring_char(i2 + l2, f2l),
                ),
                ParseOrder::TitleArtistRemaining => (
                    f2s.substring_char(0, i1),
                    f2s.substring_char(i1 + l1, i2),
                ),
                ParseOrder::TitleRemainingArtist => (
                    f2s.substring_char(0, i1),
                    f2s.substring_char(i2 + l2, f2l),
                ),
                ParseOrder::ArtistRemainingTitle => (
                    f2s.substring_char(i2 + l2, f2l),
                    f2s.substring_char(0, i1),
                ),
                ParseOrder::ArtistTitleRemaining => (
                    f2s.substring_char(i1 + l1, i2),
                    f2s.substring_char(0, i1),
                ),
                _ => (f2s.substring_char(0, i1), f2s.substring_char(i1 + l1, f2l)),
            };
            Some(ParseResult { title: title.to_owned(), artist: artist.to_owned() })
        },
        None => {
            let (title, artist) = match order {
                ParseOrder::TitleArtist => (
                    f2s.substring_char(0, i1),
                    f2s.substring_char(i1 + l1, f2l),
                ),
                _ => (f2s.substring_char(i1 + l1, f2l), f2s.substring_char(0, i1)),
            };
            Some(ParseResult { title: title.to_owned(), artist: artist.to_owned() })
        },
    }
}

} // verus!