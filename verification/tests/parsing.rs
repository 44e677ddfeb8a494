use karaoke_rs::parse::song_parse;
use karaoke_rs::calculate_hash;
use karaoke_rs::record::Kfile;

#[test]
fn test_clean_song_parse() {
    let formats = vec![
        "[Artist] - [Title]",
        "[Artist] - [Title] - [*]",
        "[Artist] - [*] - [Title]",
        "[Title] - [Artist]",
        "[Title] - [Artist] - [*]",
        "[Title] - [*] - [Artist]",
        "[*] - [Artist] - [Title]",
        "[*] - [Title] - [Artist]",
        "asdf[*] - [Artist] - [Title]asdf",
        "asdf[*]asdf[Title]asdf[Artist]asdf",
        "asdf[Title]asdf[Artist]asdf[*]asdf",
    ];
    let titles = vec![
        "Artist - Title",
        "Artist - Title - *",
        "Artist - * - Title",
        "Title - Artist",
        "Title - Artist - *",
        "Title - * - Artist",
        "* - Artist - Title",
        "* - Title - Artist",
        "asdf* - Artist - Titleasdf",
        "asdf*asdfTitleasdfArtistasdf",
        "asdfTitleasdfArtistasdf*asdf",
    ];
    for (idx, title) in titles.iter().enumerate() {
        let result = song_parse(title, formats[idx]).unwrap();
        assert_eq!(result.artist, "Artist");
        assert_eq!(result.title, "Title");
    }
}

#[test]
fn test_unclean_song_parse() {
    let song = "ABCD001 The Testers - Testing 123";
    let format = "[*] - [Artist] - [Title]";
    let result = song_parse(song, format);
    assert!(result.is_none());
}

#[test]
fn test_kfile_new() {
    let path = String::from("ABCD001 - The Testers - Testing 123");
    let config = karaoke_rs::config::Config::default();
    let kfile = Kfile::new(&path, &config.song_format, None, None);
    let _kfile = Kfile {
        mp3_path: String::from("ABCD001 - The Testers - Testing 123.mp3"),
        cdg_path: String::from("ABCD001 - The Testers - Testing 123.cdg"),
        artist: String::from("The Testers"),
        artist_hash: calculate_hash(&String::from("The Testers")),
        song: String::from("Testing 123"),
    };
    assert_eq!(kfile, _kfile);
}

#[test]
fn kfile_new_prefers_tags() {
    let path = String::from("songs/ABCD001 - The Testers - Testing 123");
    let format = String::from("[*] - [Artist] - [Title]");
    let kfile = Kfile::new(
        &path,
        &format,
        Some(String::from("Tagged Artist")),
        Some(String::from("Tagged Title")),
    );
    assert_eq!(kfile.artist, "Tagged Artist");
    assert_eq!(kfile.song, "Tagged Title");
    assert_eq!(kfile.artist_hash, calculate_hash(&String::from("Tagged Artist")));
    assert_eq!(kfile.mp3_path, "songs/ABCD001 - The Testers - Testing 123.mp3");
    assert_eq!(kfile.cdg_path, "songs/ABCD001 - The Testers - Testing 123.cdg");
}

#[test]
fn kfile_new_unparsable_name_falls_back() {
    let path = String::from("dir/just_a_name");
    let format = String::from("[Artist] - [Title]");
    let kfile = Kfile::new(&path, &format, None, None);
    assert_eq!(kfile.artist, "<None>");
    assert_eq!(kfile.song, "just_a_name");
}

#[test]
fn parse_rejects_format_without_markers() {
    assert!(song_parse("Artist - Title", "no markers here").is_none());
    assert!(song_parse("Artist - Title", "[Artist] only").is_none());
    assert!(song_parse("Artist - Title", "[Title] only").is_none());
}

#[test]
fn parse_rejects_trailing_literal_longer_than_name() {
    // The format expects a long literal tail that the name cannot contain.
    let format = "[Artist] - [Title]this tail is much longer than the whole name";
    assert!(song_parse("A - B", format).is_none());
}

#[test]
fn hash_is_content_addressed() {
    let a1 = calculate_hash(&String::from("The Testers"));
    let a2 = calculate_hash(&String::from("The Testers"));
    let b = calculate_hash(&String::from("Other Band"));
    assert_eq!(a1, a2);
    assert_ne!(a1, b);
}

#[test]
fn identity_depends_only_on_content() {
    let path = String::from("x/song");
    let format = String::from("[Artist] - [Title]");
    let k1 = Kfile::new(&path, &format, Some(String::from("A")), Some(String::from("B")));
    let k2 = Kfile::new(&path, &format, Some(String::from("A")), Some(String::from("B")));
    let k3 = Kfile::new(&path, &format, Some(String::from("A")), Some(String::from("C")));
    assert_eq!(k1.identity(), k2.identity());
    assert_ne!(k1.identity(), k3.identity());
}

#[test]
fn default_kfile_is_consistent() {
    let k = Kfile::default();
    assert_eq!(k.artist, "");
    assert_eq!(k.song, "");
    assert_eq!(k.artist_hash, calculate_hash(&String::new()));
}
