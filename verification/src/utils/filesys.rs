use std::path::Path;
use vstd::prelude::*;
use crate::media::library::views_of;
use crate::media::source::{Playlist, PlaylistView};
use crate::utils::text::{
    chars_of, parse_i32, parse_i32_chars, pieces, push_signed_decimal, push_text,
    same_chars, signed_decimal, split, split_chars, string_of, texts,
};

verus! {

/// The character between the three fields of a playlist record.
pub const FIELD_SEPARATOR: char = '\u{2058}';

/// The character in front of each source in the third field of a record.
pub const SOURCE_SEPARATOR: char = '\u{2059}';

/// The volume of a player without settings.
pub const DEFAULT_VOLUME: i32 = 100;

/// Whether `c` survives the reading of a field: a quotation mark or a
/// backslash does not.
pub open spec fn is_plain(c: char) -> bool {
    c != '"' && c != '\\'
}

/// `field` without its quotation marks and backslashes.
pub open spec fn unquoted(field: Seq<char>) -> Seq<char> {
    field.filter(|c: char| is_plain(c))
}

/// The sources that the third field of a record holds. The field is cut
/// at the source separator; the piece in front of the first separator is
/// left over from the way the field is written, and it and every piece
/// equal to it are passed over; the others are read as fields.
pub open spec fn record_sources(field: Seq<char>) -> Seq<Seq<char>> {
    split(field, SOURCE_SEPARATOR).filter(
        |piece: Seq<char>| piece != split(field, SOURCE_SEPARATOR)[0],
    ).map_values(|piece: Seq<char>| unquoted(piece))
}

/// Whether `line` has the three fields of a record.
pub open spec fn is_record(line: Seq<char>) -> bool {
    split(line, FIELD_SEPARATOR).len() >= 3
}

/// The playlist that the record `line` holds: identifier, name, sources.
pub open spec fn record_of(line: Seq<char>) -> PlaylistView {
    PlaylistView {
        id: unquoted(split(line, FIELD_SEPARATOR)[0]),
        name: unquoted(split(line, FIELD_SEPARATOR)[1]),
        sources: record_sources(split(line, FIELD_SEPARATOR)[2]),
    }
}

/// Whether every line of `text` that is not empty is a record.
pub open spec fn holds_records(text: Seq<char>) -> bool {
    forall|i: int|
        0 <= i < split(text, '\n').len() && (#[trigger] split(text, '\n')[i]).len() > 0 ==> is_record(
            split(text, '\n')[i],
        )
}

/// The playlists that `text` holds, one for each line that is not empty.
pub open spec fn records_of(text: Seq<char>) -> Seq<PlaylistView> {
    split(text, '\n').filter(|line: Seq<char>| line.len() > 0).map_values(
        |line: Seq<char>| record_of(line),
    )
}

/// The browse directory that the settings `config` hold: their first line.
pub open spec fn dir_of(config: Seq<char>) -> Seq<char> {
    split(config, '\n')[0]
}

/// The volume that the settings `config` hold: their second line, read as
/// an integer. `None` where there is no second line or it is no integer.
pub open spec fn volume_of(config: Seq<char>) -> Option<int> {
    if split(config, '\n').len() >= 2 {
        parse_i32(split(config, '\n')[1])
    } else {
        None
    }
}

/// The settings in the form in which they are kept: the directory on the
/// first line, the volume on the second.
pub open spec fn config_of(directory: Seq<char>, volume: int) -> Seq<char> {
    directory + seq!['\n'] + signed_decimal(volume) + seq!['\n']
}

/// `field` without its quotation marks and backslashes.
pub fn unquote(field: &Vec<char>) -> (plain: String)
    ensures
        plain@ == unquoted(field@),
{
    let ghost keep = |c: char| is_plain(c);
    let mut plain = String::new();
    let mut i: usize = 0;
    proof {
        assert(field@.take(0) =~= Seq::<char>::empty());
        reveal(Seq::filter);
    }
    while i < field.len()
        invariant
            i <= field.len(),
            keep == |c: char| is_plain(c),
            plain@ == field@.take(i as int).filter(keep),
        decreases field.len() - i,
    {
        proof {
            assert(field@.take(i + 1) =~= field@.take(i as int).push(field[i as int]));
            field@.take(i as int).lemma_filter_push(field[i as int], keep);
        }
        let c = field[i];
        if c != '"' && c != '\\' {
            plain.push(c);
        }
        i += 1;
    }
    assert(field@.take(i as int) =~= field@);
    plain
}

/// Reads the sources of the third field of a record into `playlist`.
fn read_sources(playlist: &mut Playlist, field: &Vec<char>)
    ensures
        final(playlist)@.sources == old(playlist)@.sources + record_sources(field@),
        final(playlist)@.id == old(playlist)@.id,
        final(playlist)@.name == old(playlist)@.name,
{
    let cut = split_chars(field, SOURCE_SEPARATOR);
    let ghost all = pieces(cut@);
    let ghost keep = |piece: Seq<char>| piece != split(field@, SOURCE_SEPARATOR)[0];
    let ghost read = |piece: Seq<char>| unquoted(piece);
    let mut i: usize = 0;
    proof {
        assert(all.take(0) =~= Seq::<Seq<char>>::empty());
        reveal(Seq::filter);
        assert(all.take(0).filter(keep).map_values(read) =~= Seq::<Seq<char>>::empty());
        assert(playlist@.sources =~= old(playlist)@.sources + all.take(0).filter(keep).map_values(read));
    }
    while i < cut.len()
        invariant
            i <= cut.len(),
            cut.len() >= 1,
            all == pieces(cut@),
            all == split(field@, SOURCE_SEPARATOR),
            keep == |piece: Seq<char>| piece != split(field@, SOURCE_SEPARATOR)[0],
            read == |piece: Seq<char>| unquoted(piece),
            playlist@.sources == old(playlist)@.sources + all.take(i as int).filter(keep).map_values(read),
            playlist@.id == old(playlist)@.id,
            playlist@.name == old(playlist)@.name,
        decreases cut.len() - i,
    {
        let ghost seen = all.take(i as int);
        proof {
            assert(all.take(i + 1) =~= seen.push(all[i as int]));
            seen.lemma_filter_push(all[i as int], keep);
            assert(all[i as int] == cut[i as int]@);
            assert(all[0] == cut[0]@);
        }
        if !same_chars(&cut[i], &cut[0]) {
            let source = unquote(&cut[i]);
            playlist.add_source(Some(source));
            assert(seen.filter(keep).push(all[i as int]).map_values(read) =~= seen.filter(keep).map_values(
                read,
            ).push(unquoted(all[i as int])));
            assert(playlist@.sources =~= old(playlist)@.sources + all.take(i + 1).filter(
                keep,
            ).map_values(read));
        }
        i += 1;
    }
    assert(all.take(i as int) =~= all);
}

/// The playlist that the record `line` holds.
pub fn read_record(line: &Vec<char>) -> (playlist: Playlist)
    requires
        is_record(line@),
    ensures
        playlist@ == record_of(line@),
{
    let fields = split_chars(line, FIELD_SEPARATOR);
    assert(pieces(fields@)[0] == fields[0]@);
    assert(pieces(fields@)[1] == fields[1]@);
    assert(pieces(fields@)[2] == fields[2]@);
    let id = unquote(&fields[0]);
    let name = unquote(&fields[1]);
    let mut playlist = Playlist::new(name);
    playlist.set_id(id);
    read_sources(&mut playlist, &fields[2]);
    assert(playlist@.sources =~= record_sources(fields[2]@));
    playlist
}

/// Whether every line of `contents` that is not empty is a record, so that
/// `get_playlists` can read it.
pub fn has_playlist_records(contents: &str) -> (complete: bool)
    ensures
        complete == holds_records(contents@),
{
    let chars = chars_of(contents);
    let lines = split_chars(&chars, '\n');
    let mut i: usize = 0;
    while i < lines.len()
        invariant
            i <= lines.len(),
            pieces(lines@) == split(contents@, '\n'),
            forall|j: int| 0 <= j < i && (#[trigger] split(contents@, '\n')[j]).len() > 0 ==> is_record(
                split(contents@, '\n')[j],
            ),
        decreases lines.len() - i,
    {
        assert(pieces(lines@)[i as int] == lines[i as int]@);
        if lines[i].len() > 0 {
            let fields = split_chars(&lines[i], FIELD_SEPARATOR);
            if fields.len() < 3 {
                assert(pieces(fields@).len() == fields.len());
                assert(!is_record(split(contents@, '\n')[i as int]));
                return false;
            }
            assert(pieces(fields@).len() == fields.len());
        }
        i += 1;
    }
    true
}

/// The playlists that the text `contents` of the playlists file holds.
pub fn get_playlists(contents: &str) -> (playlists: Vec<Playlist>)
    requires
        holds_records(contents@),
    ensures
        views_of(playlists@) == records_of(contents@),
{
    let chars = chars_of(contents);
    let lines = split_chars(&chars, '\n');
    let ghost all = pieces(lines@);
    let ghost keep = |line: Seq<char>| line.len() > 0;
    let ghost read = |line: Seq<char>| record_of(line);
    let mut playlists: Vec<Playlist> = Vec::new();
    let mut i: usize = 0;
    proof {
        assert(all.take(0) =~= Seq::<Seq<char>>::empty());
        reveal(Seq::filter);
        assert(views_of(playlists@) =~= all.take(0).filter(keep).map_values(read));
    }
    while i < lines.len()
        invariant
            i <= lines.len(),
            all == pieces(lines@),
            all == split(contents@, '\n'),
            holds_records(contents@),
            keep == |line: Seq<char>| line.len() > 0,
            read == |line: Seq<char>| record_of(line),
            views_of(playlists@) == all.take(i as int).filter(keep).map_values(read),
        decreases lines.len() - i,
    {
        let ghost seen = all.take(i as int);
        proof {
            assert(all.take(i + 1) =~= seen.push(all[i as int]));
            seen.lemma_filter_push(all[i as int], keep);
            assert(all[i as int] == lines[i as int]@);
        }
        if lines[i].len() > 0 {
            assert(split(contents@, '\n')[i as int].len() > 0);
            let ghost earlier = views_of(playlists@);
            let playlist = read_record(&lines[i]);
            playlists.push(playlist);
            assert(views_of(playlists@) =~= earlier.push(record_of(all[i as int])));
            assert(seen.filter(keep).push(all[i as int]).map_values(read) =~= seen.filter(keep).map_values(
                read,
            ).push(record_of(all[i as int])));
        }
        i += 1;
    }
    assert(all.take(i as int) =~= all);
    playlists
}

/// The browse directory that the settings hold, `contents` being the text
/// of the settings file, or `None` where there is no such file: then the
/// directory is the root.
pub fn get_dir(contents: Option<&str>) -> (directory: String)
    ensures
        directory@ == match contents {
            Some(config) => dir_of(config@),
            None => seq!['/'],
        },
{
    match contents {
        Some(config) => {
            let chars = chars_of(config);
            let lines = split_chars(&chars, '\n');
            assert(pieces(lines@)[0] == lines[0]@);
            string_of(&lines[0])
        },
        None => {
            let mut root = String::new();
            root.push('/');
            assert(root@ =~= seq!['/']);
            root
        },
    }
}

/// The volume that the text `config` of the settings file holds, if any.
pub fn read_volume(config: &str) -> (volume: Option<i32>)
    ensures
        volume is Some <==> volume_of(config@) is Some,
        volume is Some ==> volume->0 == volume_of(config@)->0,
{
    let chars = chars_of(config);
    let lines = split_chars(&chars, '\n');
    if lines.len() >= 2 {
        assert(pieces(lines@)[1] == lines[1]@);
        assert(pieces(lines@).len() == lines.len());
        parse_i32_chars(&lines[1])
    } else {
        assert(pieces(lines@).len() == lines.len());
        None
    }
}

/// The volume that the settings hold, `contents` being the text of the
/// settings file, or `None` where there is no such file: then the volume
/// is `DEFAULT_VOLUME`.
pub fn get_volume(contents: Option<&str>) -> (volume: i32)
    requires
        contents is Some ==> volume_of(contents->0@) is Some,
    ensures
        volume == match contents {
            Some(config) => volume_of(config@)->0,
            None => DEFAULT_VOLUME as int,
        },
{
    match contents {
        Some(config) => match read_volume(config) {
            Some(volume) => volume,
            None => DEFAULT_VOLUME,
        },
        None => DEFAULT_VOLUME,
    }
}

/// The text of a settings file that holds `directory` and `volume`.
pub fn config_text(directory: &str, volume: i32) -> (text: String)
    ensures
        text@ == config_of(directory@, volume as int),
{
    let mut text = String::new();
    push_text(&mut text, directory);
    text.push('\n');
    push_signed_decimal(&mut text, volume);
    text.push('\n');
    assert(text@ =~= config_of(directory@, volume as int));
    text
}

/// The text with which a settings file begins its life: the root as the
/// directory, and `DEFAULT_VOLUME`.
pub fn default_config_text() -> (text: String)
    ensures
        text@ == config_of(seq!['/'], DEFAULT_VOLUME as int),
{
    let mut text = String::new();
    text.push('/');
    text.push('\n');
    push_signed_decimal(&mut text, DEFAULT_VOLUME);
    text.push('\n');
    assert(text@ =~= config_of(seq!['/'], DEFAULT_VOLUME as int));
    text
}

/// The text with which a playlists file begins its life: one empty line.
pub fn default_playlists_text() -> (text: String)
    ensures
        text@ == seq!['\n'],
{
    let mut text = String::new();
    text.push('\n');
    assert(text@ =~= seq!['\n']);
    text
}

/// What formatting the text `s` with `{:?}` gives: `s` between quotation
/// marks, with the escapes of Rust's `Debug` for `str`.
pub uninterp spec fn debug_quoted(s: Seq<char>) -> Seq<char>;

/// Formats `s` with `{:?}`, the `Debug` form of a `str`. The result is a
/// function of the text alone; it is named, not spelled out.
#[verifier::external_body]
fn debug_string(s: &str) -> (quoted: String)
    ensures
        quoted@ == debug_quoted(s@),
{
    format!("{:?}", s)
}

/// `source` with a slash in the place of every backslash.
pub open spec fn slashed(source: Seq<char>) -> Seq<char> {
    source.map_values(|c: char| if c == '\\' { '/' } else { c })
}

/// The third field of a record before it is quoted: every source with its
/// backslashes turned to slashes and the source separator in front of it.
pub open spec fn joined_sources(sources: Seq<Seq<char>>) -> Seq<char>
    decreases sources.len(),
{
    if sources.len() == 0 {
        Seq::empty()
    } else {
        joined_sources(sources.drop_last()) + seq![SOURCE_SEPARATOR] + slashed(sources.last())
    }
}

/// The line that keeps `playlist`: identifier, name and joined sources,
/// each in its quoted form, with the field separator between them.
pub open spec fn record_text(playlist: PlaylistView) -> Seq<char> {
    debug_quoted(playlist.id) + seq![FIELD_SEPARATOR] + debug_quoted(playlist.name) + seq![
        FIELD_SEPARATOR,
    ] + debug_quoted(joined_sources(playlist.sources)) + seq!['\n']
}

/// The text that keeps `playlists`: one line for each, in order.
pub open spec fn records_text(playlists: Seq<PlaylistView>) -> Seq<char>
    decreases playlists.len(),
{
    if playlists.len() == 0 {
        Seq::empty()
    } else {
        records_text(playlists.drop_last()) + record_text(playlists.last())
    }
}

/// Appends `source` to `out` with a slash for every backslash.
fn push_slashed(out: &mut String, source: &str)
    ensures
        final(out)@ == old(out)@ + slashed(source@),
{
    let chars = chars_of(source);
    let mut i: usize = 0;
    assert(slashed(source@).take(0) =~= Seq::<char>::empty());
    while i < chars.len()
        invariant
            i <= chars.len(),
            chars@ == source@,
            out@ == old(out)@ + slashed(source@).take(i as int),
        decreases chars.len() - i,
    {
        let c = chars[i];
        if c == '\\' {
            out.push('/');
        } else {
            out.push(c);
        }
        assert(slashed(source@).take(i + 1) =~= slashed(source@).take(i as int).push(
            slashed(source@)[i as int],
        ));
        i += 1;
    }
    assert(slashed(source@).take(i as int) =~= slashed(source@));
}

/// The line of the playlists file that keeps `playlist`.
pub fn playlist_record(playlist: &Playlist) -> (line: String)
    ensures
        line@ == record_text(playlist@),
{
    let id = match playlist.get_id() {
        Some(id) => id,
        None => String::new(),
    };
    let name = match playlist.get_name() {
        Some(name) => name,
        None => String::new(),
    };
    let sources = match playlist.get_sources() {
        Some(sources) => sources,
        None => Vec::new(),
    };
    let ghost listed = texts(sources@);
    let mut joined = String::new();
    let mut i: usize = 0;
    assert(listed.take(0) =~= Seq::<Seq<char>>::empty());
    while i < sources.len()
        invariant
            i <= sources.len(),
            listed == texts(sources@),
            joined@ == joined_sources(listed.take(i as int)),
        decreases sources.len() - i,
    {
        let ghost before = joined@;
        joined.push(SOURCE_SEPARATOR);
        push_slashed(&mut joined, sources[i].as_str());
        proof {
            assert(listed.take(i + 1).drop_last() =~= listed.take(i as int));
            assert(listed.take(i + 1).last() == sources[i as int]@);
            assert(joined@ =~= before + seq![SOURCE_SEPARATOR] + slashed(sources[i as int]@));
        }
        i += 1;
    }
    assert(listed.take(i as int) =~= listed);
    let mut line = debug_string(id.as_str());
    line.push(FIELD_SEPARATOR);
    let quoted_name = debug_string(name.as_str());
    push_text(&mut line, quoted_name.as_str());
    line.push(FIELD_SEPARATOR);
    let quoted_sources = debug_string(joined.as_str());
    push_text(&mut line, quoted_sources.as_str());
    line.push('\n');
    assert(line@ =~= record_text(playlist@));
    line
}

/// The text of a playlists file that keeps `playlists`.
pub fn playlists_text(playlists: &Vec<Playlist>) -> (text: String)
    ensures
        text@ == records_text(views_of(playlists@)),
{
    let ghost all = views_of(playlists@);
    let mut text = String::new();
    let mut i: usize = 0;
    assert(all.take(0) =~= Seq::<PlaylistView>::empty());
    while i < playlists.len()
        invariant
            i <= playlists.len(),
            all == views_of(playlists@),
            text@ == records_text(all.take(i as int)),
        decreases playlists.len() - i,
    {
        let line = playlist_record(&playlists[i]);
        push_text(&mut text, line.as_str());
        proof {
            assert(all.take(i + 1).drop_last() =~= all.take(i as int));
            assert(all.take(i + 1).last() == playlists[i as int]@);
        }
        i += 1;
    }
    assert(all.take(i as int) =~= all);
    text
}

/// The directory in which the player keeps its files.
pub fn dir() -> (path: String)
    ensures
        path@ == "./bin"@,
{
    "./bin".to_owned()
}

/// The name of the settings file.
pub fn config_file() -> (name: String)
    ensures
        name@ == "config.ini"@,
{
    "config.ini".to_owned()
}

/// The path of the settings file.
pub fn config_path() -> (path: String)
    ensures
        path@ == "./bin"@ + seq!['/'] + "config.ini"@,
{
    let mut path = dir();
    path.push('/');
    push_text(&mut path, config_file().as_str());
    assert(path@ =~= "./bin"@ + seq!['/'] + "config.ini"@);
    path
}

/// The name of the playlists file.
pub fn playlists_file() -> (name: String)
    ensures
        name@ == "playlists.ini"@,
{
    "playlists.ini".to_owned()
}

/// The path of the playlists file.
pub fn playlists_path() -> (path: String)
    ensures
        path@ == "./bin"@ + seq!['/'] + "playlists.ini"@,
{
    let mut path = dir();
    path.push('/');
    push_text(&mut path, playlists_file().as_str());
    assert(path@ =~= "./bin"@ + seq!['/'] + "playlists.ini"@);
    path
}

/// What `Path::file_name` of the standard library makes of the path
/// `path`: its last component, if it has one.
pub uninterp spec fn path_file_name(path: Seq<char>) -> Option<Seq<char>>;

/// Calls `Path::file_name` on `path`. The result is a function of the
/// path alone; it is named, not spelled out.
#[verifier::external_body]
fn file_name_of(path: &str) -> (name: Option<String>)
    ensures
        name is Some <==> path_file_name(path@) is Some,
        name is Some ==> name->0@ == path_file_name(path@)->0,
{
    match Path::new(path).file_name() {
        Some(name) => Some(name.display().to_string()),
        None => None,
    }
}

/// The title that stands for the file name `name`: the name itself, and
/// the empty text where there is none.
pub open spec fn title_text(name: Option<Seq<char>>) -> Seq<char> {
    match name {
        Some(name) => name,
        None => Seq::empty(),
    }
}

/// The title that stands for a file name.
pub fn title_of(name: Option<String>) -> (title: String)
    ensures
        title@ == title_text(
            match name {
                Some(name) => Some(name@),
                None => None,
            },
        ),
{
    match name {
        Some(name) => name,
        None => String::new(),
    }
}

/// The title under which the file at `path` is shown while its tags give
/// none: its file name, or the empty text where the path has none.
pub fn create_from_path(path: String) -> (title: String)
    ensures
        title@ == title_text(path_file_name(path@)),
{
    title_of(file_name_of(path.as_str()))
}

} // verus!
