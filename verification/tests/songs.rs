use music_player::songs::SongInfo;
use music_player::songs::NO_ALBUM;
use music_player::songs::NO_ARTIST;

#[test]
fn song_with_all_tags_shows_them() {
    let song = SongInfo::from_tags("./a.mp3", Some("Title"), Some("Artist"), Some("Album"));
    assert_eq!(song.name, "Title");
    assert_eq!(song.artist, "Artist");
    assert_eq!(song.album, "Album");
}

#[test]
fn song_without_tags_goes_by_its_path() {
    let song = SongInfo::from_tags("./a.mp3", None, None, None);
    assert_eq!(song.name, "./a.mp3");
    assert_eq!(song.artist, "No artist info!");
    assert_eq!(song.album, "No album info!");
}

#[test]
fn missing_tags_are_filled_one_by_one() {
    let song = SongInfo::from_tags("./b.mp3", Some("Only title"), None, Some("Only album"));
    assert_eq!(song.name, "Only title");
    assert_eq!(song.artist, NO_ARTIST);
    assert_eq!(song.album, "Only album");
    let other = SongInfo::from_tags("./c.mp3", None, Some("Only artist"), None);
    assert_eq!(other.name, "./c.mp3");
    assert_eq!(other.artist, "Only artist");
    assert_eq!(other.album, NO_ALBUM);
}

#[test]
fn empty_tag_is_kept_as_it_is() {
    let song = SongInfo::from_tags("./d.mp3", Some(""), Some(""), Some(""));
    assert_eq!(song.name, "");
    assert_eq!(song.artist, "");
    assert_eq!(song.album, "");
}
