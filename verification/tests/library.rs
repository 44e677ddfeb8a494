use karaoke_rs::calculate_hash;
use karaoke_rs::collection::{collection_diff, Collection};
use karaoke_rs::config::Config;
use karaoke_rs::listing::{filter_artists, filter_songs, sort_artists, sort_songs};
use karaoke_rs::model::{page_bounds, total_pages, Artist as ModelArtist, Song, SortKey};
use karaoke_rs::record::Kfile;

fn record(artist: &str, song: &str) -> Kfile {
    let path = format!("songs/{} - {}", artist, song);
    let fmt = String::from("[Artist] - [Title]");
    Kfile::new(&path, &fmt, Some(String::from(artist)), Some(String::from(song)))
}

#[test]
fn collection_indexes_songs_by_identity() {
    let songs = vec![record("Ann", "First"), record("Ann", "Second"), record("Bob", "Third")];
    let ids: Vec<u64> = songs.iter().map(|k| k.identity()).collect();
    let collection = Collection::new(songs);
    assert_eq!(collection.by_song.len(), 3);
    for id in ids.iter() {
        assert!(collection.by_song.contains_key(id));
    }
    assert_eq!(collection.by_song[&ids[1]].song, "Second");
}

#[test]
fn collection_groups_songs_by_artist() {
    let songs = vec![record("Ann", "First"), record("Ann", "Second"), record("Bob", "Third")];
    let collection = Collection::new(songs);
    assert_eq!(collection.by_artist.len(), 2);
    let ann = &collection.by_artist[&calculate_hash(&String::from("Ann"))];
    assert_eq!(ann.name, "Ann");
    assert_eq!(ann.num_songs, 2);
    assert_eq!(ann.songs.len(), 2);
    let bob = &collection.by_artist[&calculate_hash(&String::from("Bob"))];
    assert_eq!(bob.name, "Bob");
    assert_eq!(bob.num_songs, 1);
}

#[test]
fn collection_deduplicates_identical_records() {
    let songs = vec![record("Ann", "First"), record("Ann", "First")];
    let collection = Collection::new(songs);
    assert_eq!(collection.by_song.len(), 1);
    let ann = &collection.by_artist[&calculate_hash(&String::from("Ann"))];
    assert_eq!(ann.num_songs, 1);
}

#[test]
fn config_defaults() {
    let config = Config::default();
    assert!(!config.no_collection_update);
    assert!(!config.use_web_player);
    assert_eq!(config.port, 8080);
    assert_eq!(config.port_ws, 9000);
    assert_eq!(config.song_format, "[*] - [Artist] - [Title]");
}

#[test]
fn config_with_args_overrides_only_supplied_fields() {
    let config = Config::default().with_args(
        Some(String::from("songs")),
        None,
        Some(true),
        None,
        Some(9999),
        None,
    );
    assert_eq!(config.song_path, "songs");
    assert_eq!(config.data_path, "");
    assert!(config.no_collection_update);
    assert!(!config.use_web_player);
    assert_eq!(config.port, 9999);
    assert_eq!(config.port_ws, 9000);
    assert_eq!(config.song_format, "[*] - [Artist] - [Title]");
}

fn listed(name: &str, artist: &str, id: u64, artist_id: u64, favorite: bool) -> Song {
    Song {
        id,
        name: String::from(name),
        artist_id,
        artist_name: String::from(artist),
        favorite,
    }
}

#[test]
fn sort_songs_is_case_insensitive() {
    let songs = vec![
        listed("banana", "X", 1, 1, false),
        listed("Cherry", "X", 2, 1, false),
        listed("apple", "X", 3, 1, false),
    ];
    let sorted = sort_songs(songs, SortKey::Song, false);
    let names: Vec<&str> = sorted.iter().map(|s| s.name.as_str()).collect();
    assert_eq!(names, vec!["apple", "banana", "Cherry"]);
}

#[test]
fn sort_songs_descending_reverses() {
    let songs = vec![
        listed("apple", "X", 1, 1, false),
        listed("Cherry", "X", 2, 1, false),
        listed("banana", "X", 3, 1, false),
    ];
    let sorted = sort_songs(songs, SortKey::Song, true);
    let names: Vec<&str> = sorted.iter().map(|s| s.name.as_str()).collect();
    assert_eq!(names, vec!["Cherry", "banana", "apple"]);
}

#[test]
fn sort_songs_by_artist() {
    let songs = vec![
        listed("one", "zeta", 1, 1, false),
        listed("two", "Alpha", 2, 2, false),
    ];
    let sorted = sort_songs(songs, SortKey::Artist, false);
    assert_eq!(sorted[0].artist_name, "Alpha");
    assert_eq!(sorted[1].artist_name, "zeta");
}

#[test]
fn filter_songs_by_flags_and_query() {
    let songs = vec![
        listed("Rocker", "Ann", 1, 10, true),
        listed("Ballad", "Ann", 2, 10, false),
        listed("Rock On", "Bob", 3, 20, false),
    ];
    let favorites = filter_songs(songs, true, None, None);
    assert_eq!(favorites.len(), 1);
    assert_eq!(favorites[0].name, "Rocker");

    let songs = vec![
        listed("Rocker", "Ann", 1, 10, true),
        listed("Ballad", "Ann", 2, 10, false),
        listed("Rock On", "Bob", 3, 20, false),
    ];
    let by_artist = filter_songs(songs, false, Some(10), None);
    assert_eq!(by_artist.len(), 2);

    let songs = vec![
        listed("Rocker", "Ann", 1, 10, true),
        listed("Ballad", "Ann", 2, 10, false),
        listed("Rock On", "Bob", 3, 20, false),
    ];
    // The query matches case-insensitively against title or artist name.
    let query = String::from("ROCK");
    let matches = filter_songs(songs, false, None, Some(&query));
    assert_eq!(matches.len(), 2);
    assert_eq!(matches[0].name, "Rocker");
    assert_eq!(matches[1].name, "Rock On");
}

#[test]
fn pagination_counts_and_bounds() {
    assert_eq!(total_pages(0), 0);
    assert_eq!(total_pages(1), 1);
    assert_eq!(total_pages(100), 1);
    assert_eq!(total_pages(101), 2);

    assert_eq!(page_bounds(250, 1), Some((0, 100)));
    assert_eq!(page_bounds(250, 2), Some((100, 200)));
    assert_eq!(page_bounds(250, 3), Some((200, 250)));
    assert_eq!(page_bounds(250, 4), None);
    assert_eq!(page_bounds(250, 0), None);
    // The empty listing still answers its first page, with no rows.
    assert_eq!(page_bounds(0, 1), Some((0, 0)));
}

#[test]
fn collection_diff_splits_removals_and_additions() {
    let known = record("Ann", "First");
    let gone_key = 12345u64;
    let existing_keys = vec![known.identity(), gone_key];
    let fresh = record("Bob", "Third");
    let valid = vec![known.clone(), fresh.clone()];
    let (removals, additions) = collection_diff(existing_keys, valid);
    // The stale key is removed; the known song is kept; the new song is added.
    assert_eq!(removals, vec![gone_key]);
    assert_eq!(additions.len(), 1);
    assert_eq!(additions[0], fresh);
}

fn artist_row(name: &str, id: u64, num_songs: usize) -> ModelArtist {
    ModelArtist { id, name: String::from(name), num_songs }
}

#[test]
fn sort_artists_by_name_and_count() {
    let artists = vec![
        artist_row("zeta", 1, 3),
        artist_row("Alpha", 2, 7),
        artist_row("mike", 3, 1),
    ];
    let by_name = sort_artists(artists, SortKey::Artist, false);
    let names: Vec<&str> = by_name.iter().map(|a| a.name.as_str()).collect();
    assert_eq!(names, vec!["Alpha", "mike", "zeta"]);

    let artists = vec![
        artist_row("zeta", 1, 3),
        artist_row("Alpha", 2, 7),
        artist_row("mike", 3, 1),
    ];
    let by_count = sort_artists(artists, SortKey::NumSongs, true);
    let counts: Vec<usize> = by_count.iter().map(|a| a.num_songs).collect();
    assert_eq!(counts, vec![7, 3, 1]);
}

#[test]
fn filter_artists_by_id_and_query() {
    let artists = vec![
        artist_row("The Rockers", 1, 3),
        artist_row("Balladeers", 2, 7),
    ];
    let query = String::from("rock");
    let matched = filter_artists(artists, None, Some(&query));
    assert_eq!(matched.len(), 1);
    assert_eq!(matched[0].name, "The Rockers");

    let artists = vec![
        artist_row("The Rockers", 1, 3),
        artist_row("Balladeers", 2, 7),
    ];
    let by_id = filter_artists(artists, Some(2), None);
    assert_eq!(by_id.len(), 1);
    assert_eq!(by_id[0].name, "Balladeers");
}
