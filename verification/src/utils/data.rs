use std::path::Path;
use vstd::prelude::*;
use crate::utils::text::{push_text, push_two_digits, two_digits};

verus! {

/// What is added, in milliseconds, to a measured track length that is not
/// zero, to make up for what decoding cuts off at the end.
pub const TRAILING_ALLOWANCE: u64 = 1000;

/// What the metadata provider read from the tags of a file.
#[derive(Debug)]
pub struct Tags {
    pub album_title: Option<String>,
    pub artist: Option<String>,
    pub title: Option<String>,
}

/// How the length of a track is measured.
#[derive(Clone, Copy, Debug, PartialEq, Eq, Structural)]
pub enum Reader {
    /// By the frames of an MP3 file.
    Mp3,
    /// By the audio decoder.
    Decoder,
    /// Not at all: the length stays unknown.
    Unknown,
}

/// How loud the volume is, for the sign that shows it.
#[derive(Clone, Copy, Debug, PartialEq, Eq, Structural)]
pub enum VolumeLevel {
    /// Above 70.
    High,
    /// Above 40, up to 70.
    Medium,
    /// Above 0, up to 40.
    Low,
    /// 0 or less.
    Mute,
}

/// The level of the volume `volume`.
pub open spec fn level_of(volume: int) -> VolumeLevel {
    if volume > 70 {
        VolumeLevel::High
    } else if volume > 40 {
        VolumeLevel::Medium
    } else if volume > 0 {
        VolumeLevel::Low
    } else {
        VolumeLevel::Mute
    }
}

/// `text` behind a dash, or nothing where `text` is empty.
pub open spec fn dashed(text: Seq<char>) -> Seq<char> {
    if text.len() == 0 {
        text
    } else {
        "  \u{2014}  "@ + text
    }
}

/// The line that says what plays: the title, then artist and album as far
/// as they are known, each behind a dash; the heading alone while nothing
/// is selected.
pub open spec fn playing_line(
    now_playing: Seq<char>,
    title: Seq<char>,
    artist: Seq<char>,
    album: Seq<char>,
) -> Seq<char> {
    if now_playing.len() == 0 {
        "Playing:  "@
    } else {
        "Playing:  "@ + title + dashed(artist) + dashed(album)
    }
}

/// The text of `field`, empty where there is none.
pub open spec fn text_or_empty(field: Option<String>) -> Seq<char> {
    match field {
        Some(text) => text@,
        None => Seq::empty(),
    }
}

/// Whether `file_path` names a file: it is there and not empty.
pub open spec fn names_file(file_path: Option<String>) -> bool {
    file_path is Some && file_path->0@.len() > 0
}

/// `millis` milliseconds as a clock time in whole seconds: minutes and
/// seconds, with the hours in front once there is one; each part at least
/// two digits wide.
pub open spec fn duration_text(millis: nat) -> Seq<char> {
    let seconds = millis / 1000;
    if seconds / 3600 >= 1 {
        two_digits(seconds / 3600) + seq![':'] + two_digits((seconds / 60) % 60) + seq![':']
            + two_digits(seconds % 60)
    } else {
        two_digits((seconds / 60) % 60) + seq![':'] + two_digits(seconds % 60)
    }
}

/// The length of a track from what was measured: nothing where nothing
/// could be measured, else the measure plus `TRAILING_ALLOWANCE`.
pub open spec fn total_time_of(measured: Option<u64>) -> nat {
    match measured {
        Some(millis) => if millis != 0 {
            (millis + TRAILING_ALLOWANCE) as nat
        } else {
            0
        },
        None => 0,
    }
}

/// The reader for a file whose extension, in lower case, is `lowered`.
pub open spec fn reader_of(lowered: Option<Seq<char>>) -> Reader {
    match lowered {
        Some(extension) => if extension == "mp3"@ {
            Reader::Mp3
        } else {
            Reader::Decoder
        },
        None => Reader::Unknown,
    }
}

/// What `str::to_lowercase` makes of a text: its lower-case form by the
/// rules of Unicode.
pub uninterp spec fn lowercase(s: Seq<char>) -> Seq<char>;

/// Calls `str::to_lowercase`, whose result is a function of the text
/// alone; it is named, not spelled out.
#[verifier::external_body]
fn to_lowercase(s: &str) -> (lowered: String)
    ensures
        lowered@ == lowercase(s@),
{
    s.to_lowercase()
}

/// What `Path::extension` of the standard library makes of the path
/// `path`: the part of its file name behind the last dot, if it has one.
pub uninterp spec fn path_extension(path: Seq<char>) -> Option<Seq<char>>;

/// Calls `Path::extension` on `path`. The result is a function of the
/// path alone; it is named, not spelled out.
#[verifier::external_body]
fn extension_of(path: &str) -> (extension: Option<String>)
    ensures
        extension is Some <==> path_extension(path@) is Some,
        extension is Some ==> extension->0@ == path_extension(path@)->0,
{
    match Path::new(path).extension() {
        Some(extension) => Some(extension.display().to_string()),
        None => None,
    }
}

/// `duration` milliseconds as `MM:SS`, or `HH:MM:SS` from one hour on.
pub fn format_duration(duration: u64) -> (text: String)
    ensures
        text@ == duration_text(duration as nat),
{
    let total = duration / 1000;
    let seconds = total % 60;
    let minutes = (total / 60) % 60;
    let hours = (total / 60) / 60;
    let mut text = String::new();
    if hours >= 1 {
        push_two_digits(&mut text, hours);
        text.push(':');
    }
    push_two_digits(&mut text, minutes);
    text.push(':');
    push_two_digits(&mut text, seconds);
    assert(text@ =~= duration_text(duration as nat));
    text
}

/// Whether the metadata provider is to be asked about `file_path`.
pub fn has_path(file_path: &Option<String>) -> (named: bool)
    ensures
        named == names_file(*file_path),
{
    match file_path {
        Some(path) => !path.as_str().is_empty(),
        None => false,
    }
}

/// A copy of `field`, empty where there is none.
fn field_or_empty(field: &Option<String>) -> (text: String)
    ensures
        text@ == text_or_empty(*field),
{
    match field {
        Some(text) => text.clone(),
        None => String::new(),
    }
}

/// Album, artist and title of the file at `file_path`, `read` being what
/// the metadata provider read from it, or `None` where it could not. Each
/// is empty where the path names no file, nothing was read or the tag is
/// missing.
pub fn get_tags(file_path: &Option<String>, read: &Option<Tags>) -> (tags: (String, String, String))
    ensures
        names_file(*file_path) && *read is Some ==> {
            &&& tags.0@ == text_or_empty(read->0.album_title)
            &&& tags.1@ == text_or_empty(read->0.artist)
            &&& tags.2@ == text_or_empty(read->0.title)
        },
        !(names_file(*file_path) && *read is Some) ==> {
            &&& tags.0@ == Seq::<char>::empty()
            &&& tags.1@ == Seq::<char>::empty()
            &&& tags.2@ == Seq::<char>::empty()
        },
{
    if has_path(file_path) {
        if let Some(found) = read {
            return (
                field_or_empty(&found.album_title),
                field_or_empty(&found.artist),
                field_or_empty(&found.title),
            );
        }
    }
    (String::new(), String::new(), String::new())
}

/// The album of the file at `file_path`, as `get_tags` gives it.
pub fn get_album(file_path: Option<String>, read: &Option<Tags>) -> (album: String)
    ensures
        album@ == if names_file(file_path) && *read is Some {
            text_or_empty(read->0.album_title)
        } else {
            Seq::<char>::empty()
        },
{
    let (album, _artist, _title) = get_tags(&file_path, read);
    album
}

/// The artist of the file at `file_path`, as `get_tags` gives it.
pub fn get_artist(file_path: Option<String>, read: &Option<Tags>) -> (artist: String)
    ensures
        artist@ == if names_file(file_path) && *read is Some {
            text_or_empty(read->0.artist)
        } else {
            Seq::<char>::empty()
        },
{
    let (_album, artist, _title) = get_tags(&file_path, read);
    artist
}

/// The title of the file at `file_path`, as `get_tags` gives it.
pub fn get_title(file_path: Option<String>, read: &Option<Tags>) -> (title: String)
    ensures
        title@ == if names_file(file_path) && *read is Some {
            text_or_empty(read->0.title)
        } else {
            Seq::<char>::empty()
        },
{
    let (_album, _artist, title) = get_tags(&file_path, read);
    title
}

/// The reader for a file whose extension, already in lower case, is
/// `lowered`: the MP3 reader for `mp3`, the decoder for any other, none
/// without an extension.
pub fn reader_for_lowered(lowered: &Option<String>) -> (reader: Reader)
    ensures
        reader == reader_of(
            match *lowered {
                Some(extension) => Some(extension@),
                None => None,
            },
        ),
{
    match lowered {
        Some(extension) => {
            let mp3 = "mp3".to_owned();
            if *extension == mp3 {
                Reader::Mp3
            } else {
                Reader::Decoder
            }
        },
        None => Reader::Unknown,
    }
}

/// The reader for a file with the extension `extension`, whatever its case.
pub fn reader_for_extension(extension: &Option<String>) -> (reader: Reader)
    ensures
        reader == reader_of(
            match *extension {
                Some(extension) => Some(lowercase(extension@)),
                None => None,
            },
        ),
{
    let lowered = match extension {
        Some(extension) => Some(to_lowercase(extension.as_str())),
        None => None,
    };
    reader_for_lowered(&lowered)
}

/// The reader that measures the file at `file_path`, chosen by the
/// extension that the path has.
pub fn duration_reader(file_path: &str) -> (reader: Reader)
    ensures
        reader == reader_of(
            match path_extension(file_path@) {
                Some(extension) => Some(lowercase(extension)),
                None => None,
            },
        ),
{
    reader_for_extension(&extension_of(file_path))
}

/// The length of a track, `measured` being what its reader measured in
/// milliseconds, or `None` where the file is missing or unreadable.
pub fn get_total_time(measured: Option<u64>) -> (total: u64)
    requires
        measured is Some ==> measured->0 + TRAILING_ALLOWANCE <= u64::MAX,
    ensures
        total == total_time_of(measured),
{
    match measured {
        Some(millis) => if millis != 0 {
            millis + TRAILING_ALLOWANCE
        } else {
            0
        },
        None => 0,
    }
}

/// The level of the volume `volume`.
pub fn volume_level(volume: i32) -> (level: VolumeLevel)
    ensures
        level == level_of(volume as int),
{
    if volume > 70 {
        VolumeLevel::High
    } else if volume > 40 {
        VolumeLevel::Medium
    } else if volume > 0 {
        VolumeLevel::Low
    } else {
        VolumeLevel::Mute
    }
}

/// The title under which a track is shown: the one from its tags, and
/// `file_name` where the tags give none.
pub fn shown_title(title: String, file_name: String) -> (shown: String)
    ensures
        shown@ == if title@.len() == 0 { file_name@ } else { title@ },
{
    if title.as_str().is_empty() {
        file_name
    } else {
        title
    }
}

/// Appends `text` behind a dash to `line`, if there is any.
fn push_dashed(line: &mut String, text: &str)
    ensures
        final(line)@ == old(line)@ + dashed(text@),
{
    if !text.is_empty() {
        push_text(line, "  \u{2014}  ");
        push_text(line, text);
    }
    assert(line@ =~= old(line)@ + dashed(text@));
}

/// The line that says what plays.
pub fn now_playing_line(now_playing: &str, title: &str, artist: &str, album: &str) -> (line: String)
    ensures
        line@ == playing_line(now_playing@, title@, artist@, album@),
{
    let mut line = "Playing:  ".to_owned();
    if !now_playing.is_empty() {
        push_text(&mut line, title);
        push_dashed(&mut line, artist);
        push_dashed(&mut line, album);
    }
    assert(line@ =~= playing_line(now_playing@, title@, artist@, album@));
    line
}

} // verus!
