//! The texts that the track list shows for a track: what its tag says, and
//! what stands in for what the tag leaves out.

use crate::append_decimal;
use crate::decimal;
use vstd::prelude::*;
use vstd::string::StringExecFns;

verus! {

/// What the tag of a track says, as far as the track list shows it.
pub struct TrackTags {
    /// The title of the track.
    pub title: Option<String>,
    /// The artist.
    pub artist: Option<String>,
    /// The album.
    pub album: Option<String>,
    /// The genre.
    pub genre: Option<String>,
    /// The year of the recording.
    pub year: Option<i32>,
    /// The number of the track on its album.
    pub track: Option<u32>,
    /// The number of tracks on the album.
    pub total_tracks: Option<u32>,
}

/// The texts of one row of the track list. A column without a text stays
/// empty.
pub struct TrackRow {
    /// The title column.
    pub title: String,
    /// The artist column.
    pub artist: Option<String>,
    /// The album column.
    pub album: Option<String>,
    /// The genre column.
    pub genre: Option<String>,
    /// The year column.
    pub year: Option<String>,
    /// The track column.
    pub track: Option<String>,
}

/// A row of the track list as mathematical values.
pub ghost struct TrackRowView {
    /// The title column.
    pub title: Seq<char>,
    /// The artist column.
    pub artist: Option<Seq<char>>,
    /// The album column.
    pub album: Option<Seq<char>>,
    /// The genre column.
    pub genre: Option<Seq<char>>,
    /// The year column.
    pub year: Option<Seq<char>>,
    /// The track column.
    pub track: Option<Seq<char>>,
}

/// The view of a text that may be missing.
pub open spec fn text_view(text: Option<String>) -> Option<Seq<char>> {
    match text {
        Some(text) => Some(text@),
        None => None,
    }
}

impl View for TrackRow {
    type V = TrackRowView;

    open spec fn view(&self) -> TrackRowView {
        TrackRowView {
            title: self.title@,
            artist: text_view(self.artist),
            album: text_view(self.album),
            genre: text_view(self.genre),
            year: text_view(self.year),
            track: text_view(self.track),
        }
    }
}

/// What the list shows for something that the tag does not say.
pub open spec fn unknown() -> Seq<char> {
    "unknown"@
}

/// A text of the tag, or the stand-in where the tag does not have it.
pub open spec fn shown_text(text: Option<String>) -> Seq<char> {
    match text {
        Some(text) => text@,
        None => unknown(),
    }
}

/// A number written in decimal digits, with a minus sign where it is
/// negative.
pub open spec fn signed_decimal(number: int) -> Seq<char> {
    if number < 0 {
        seq!['-'] + decimal((-number) as nat)
    } else {
        decimal(number as nat)
    }
}

/// A count of the tag in decimal digits, or the stand-in where the tag does
/// not have it.
pub open spec fn shown_count(count: Option<u32>) -> Seq<char> {
    match count {
        Some(count) => decimal(count as nat),
        None => unknown(),
    }
}

/// The year of the tag in decimal digits, or the stand-in where the tag does
/// not have it.
pub open spec fn shown_year(year: Option<i32>) -> Seq<char> {
    match year {
        Some(year) => signed_decimal(year as int),
        None => unknown(),
    }
}

/// The track column: the number of the track, a slash between two spaces,
/// and the number of tracks on the album.
pub open spec fn shown_track(track: Option<u32>, total_tracks: Option<u32>) -> Seq<char> {
    shown_count(track) + " / "@ + shown_count(total_tracks)
}

/// The row that the list shows for a track. With a tag, the title is the
/// tag's, or the file's name where the tag has none, and every other column
/// shows what the tag says or the stand-in. Without a tag, only the title
/// column is filled, with the file's name.
pub open spec fn row_of(tags: Option<TrackTags>, filename: Seq<char>) -> TrackRowView {
    match tags {
        Some(tags) => TrackRowView {
            title: match tags.title {
                Some(title) => title@,
                None => filename,
            },
            artist: Some(shown_text(tags.artist)),
            album: Some(shown_text(tags.album)),
            genre: Some(shown_text(tags.genre)),
            year: Some(shown_year(tags.year)),
            track: Some(shown_track(tags.track, tags.total_tracks)),
        },
        None => TrackRowView {
            title: filename,
            artist: None,
            album: None,
            genre: None,
            year: None,
            track: None,
        },
    }
}

/// A text of the tag, or the stand-in.
fn text_or_unknown(text: Option<String>) -> (shown: String)
    ensures
        shown@ == shown_text(text),
{
    match text {
        Some(text) => text,
        None => String::from_str("unknown"),
    }
}

/// Writes a count of the tag, or the stand-in, at the end of a text.
fn append_count(text: &mut String, count: Option<u32>)
    ensures
        final(text)@ == old(text)@ + shown_count(count),
{
    match count {
        Some(count) => append_decimal(text, count as u64),
        None => text.append("unknown"),
    }
}

/// The year of the tag in decimal digits, or the stand-in.
fn year_or_unknown(year: Option<i32>) -> (shown: String)
    ensures
        shown@ == shown_year(year),
{
    match year {
        Some(year) => {
            let mut shown = String::from_str("");
            proof {
                reveal_strlit("");
                reveal_strlit("-");
            }
            if year < 0 {
                shown.append("-");
                append_decimal(&mut shown, (-(year as i64)) as u64);
            } else {
                append_decimal(&mut shown, year as u64);
            }
            assert(shown@ =~= shown_year(Some(year)));
            shown
        },
        None => String::from_str("unknown"),
    }
}

/// Makes the row that the list shows for a track from what its tag says, if
/// the track has a tag, and the name of its file.
pub fn describe(tags: Option<TrackTags>, filename: String) -> (row: TrackRow)
    ensures
        row@ == row_of(tags, filename@),
{
    match tags {
        Some(tags) => {
            let title = match tags.title {
                Some(title) => title,
                None => filename,
            };
            let mut track = String::from_str("");
            proof {
                reveal_strlit("");
            }
            append_count(&mut track, tags.track);
            track.append(" / ");
            append_count(&mut track, tags.total_tracks);
            assert(track@ =~= shown_track(tags.track, tags.total_tracks));
            TrackRow {
                title,
                artist: Some(text_or_unknown(tags.artist)),
                album: Some(text_or_unknown(tags.album)),
                genre: Some(text_or_unknown(tags.genre)),
                year: Some(year_or_unknown(tags.year)),
                track: Some(track),
            }
        },
        None => TrackRow {
            title: filename,
            artist: None,
            album: None,
            genre: None,
            year: None,
            track: None,
        },
    }
}

} // verus!
