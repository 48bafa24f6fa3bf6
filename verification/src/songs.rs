//! What the track list shows of a song.
use vstd::prelude::*;
use vstd::string::*;

verus! {

/// Shown where a file names no artist.
pub const NO_ARTIST: &'static str = "No artist info!";

/// Shown where a file names no album.
pub const NO_ALBUM: &'static str = "No album info!";

/// The text of `tag`, or `fallback` where the tag is missing.
pub open spec fn text_or(tag: Option<&str>, fallback: &str) -> Seq<char> {
    match tag {
        Some(text) => text@,
        None => fallback@,
    }
}

/// One line of the track list.
#[derive(Clone, Debug)]
pub struct SongInfo {
    pub name: String,
    pub artist: String,
    pub album: String,
}

impl SongInfo {
    /// The line for the file at `path`, given the tags that were read from
    /// it. A song without a title goes by its path; a missing artist or album
    /// is said to be missing.
    pub fn from_tags(
        path: &str,
        title: Option<&str>,
        artist: Option<&str>,
        album: Option<&str>,
    ) -> (song: SongInfo)
        ensures
            song.name@ == text_or(title, path),
            song.artist@ == text_or(artist, NO_ARTIST),
            song.album@ == text_or(album, NO_ALBUM),
    {
        let name: &str = match title {
            Some(text) => text,
            None => path,
        };
        let artist: &str = match artist {
            Some(text) => text,
            None => NO_ARTIST,
        };
        let album: &str = match album {
            Some(text) => text,
            None => NO_ALBUM,
        };
        SongInfo {
            name: String::from_str(name),
            artist: String::from_str(artist),
            album: String::from_str(album),
        }
    }
}

} // verus!
