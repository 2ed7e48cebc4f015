use vstd::prelude::*;

verus! {

/// What kind of media the source reports as playing.
#[derive(Clone, Copy, Debug, PartialEq, Eq, Structural)]
pub enum PlaybackKind {
    Music,
    Video,
    Image,
    Unknown,
}

/// The name under which a playback kind is reported to the host.
pub open spec fn kind_name(k: PlaybackKind) -> Seq<char> {
    match k {
        PlaybackKind::Music => "Music"@,
        PlaybackKind::Video => "Video"@,
        PlaybackKind::Image => "Image"@,
        PlaybackKind::Unknown => "Unknown"@,
    }
}

pub fn playback_type_to_string(pt: PlaybackKind) -> (r: &'static str)
    ensures
        r@ == kind_name(pt),
{
    match pt {
        PlaybackKind::Music => "Music",
        PlaybackKind::Video => "Video",
        PlaybackKind::Image => "Image",
        PlaybackKind::Unknown => "Unknown",
    }
}

/// The characters that `char::is_whitespace` accepts (Unicode `White_Space`).
pub open spec fn is_white(c: char) -> bool {
    let u = c as u32;
    ||| 0x9 <= u <= 0xD
    ||| u == 0x20
    ||| u == 0x85
    ||| u == 0xA0
    ||| u == 0x1680
    ||| 0x2000 <= u <= 0x200A
    ||| u == 0x2028
    ||| u == 0x2029
    ||| u == 0x202F
    ||| u == 0x205F
    ||| u == 0x3000
}

pub open spec fn all_white(s: Seq<char>) -> bool {
    forall|k: int| 0 <= k < s.len() ==> is_white(#[trigger] s[k])
}

/// `s[i..j]` is what is left of `s` once leading and trailing whitespace is removed.
pub open spec fn is_trim_cut(s: Seq<char>, i: int, j: int) -> bool {
    &&& 0 <= i <= j <= s.len()
    &&& forall|k: int| 0 <= k < i ==> is_white(#[trigger] s[k])
    &&& forall|k: int| j <= k < s.len() ==> is_white(#[trigger] s[k])
    &&& i < j ==> !is_white(s[i]) && !is_white(s[j - 1])
}

pub open spec fn is_trim_of(r: Seq<char>, s: Seq<char>) -> bool {
    exists|i: int, j: int| is_trim_cut(s, i, j) && r == s.subrange(i, j)
}

/// A trimmed string is empty exactly when the untrimmed one holds only whitespace.
pub proof fn lemma_trim_empty(r: Seq<char>, s: Seq<char>)
    requires
        is_trim_of(r, s),
    ensures
        r.len() == 0 <==> all_white(s),
{
    let (i, j) = choose|i: int, j: int| is_trim_cut(s, i, j) && r == s.subrange(i, j);
    if r.len() == 0 {
        assert forall|k: int| 0 <= k < s.len() implies is_white(#[trigger] s[k]) by {
            if k >= j {
            } else {
                assert(k < i);
            }
        }
    }
    if all_white(s) && r.len() > 0 {
        assert(is_white(s[i]));
    }
}

/// Relies on str::trim: the slice with leading and trailing whitespace removed,
/// whitespace being what `char::is_whitespace` accepts.
#[verifier::external_body]
pub(crate) fn trim_str<'a>(s: &'a str) -> (r: &'a str)
    ensures
        is_trim_of(r@, s@),
{
    s.trim()
}

/// The mathematical value of a snapshot: text as character sequences.
pub struct SnapshotModel {
    pub title: Option<Seq<char>>,
    pub artist: Option<Seq<char>>,
    pub album_title: Option<Seq<char>>,
    pub album_artist: Option<Seq<char>>,
    pub genres: Option<Seq<Seq<char>>>,
    pub subtitle: Option<Seq<char>>,
    pub track_number: Option<u32>,
    pub album_track_count: Option<u32>,
    pub playback_type: Option<PlaybackKind>,
    pub thumbnail_path: Option<Seq<char>>,
}

/// The model in which every field is absent.
pub open spec fn absent_model() -> SnapshotModel {
    SnapshotModel {
        title: None,
        artist: None,
        album_title: None,
        album_artist: None,
        genres: None,
        subtitle: None,
        track_number: None,
        album_track_count: None,
        playback_type: None,
        thumbnail_path: None,
    }
}

/// One observed state of the media source.
#[derive(Debug)]
pub struct Snapshot {
    pub title: Option<String>,
    pub artist: Option<String>,
    pub album_title: Option<String>,
    pub album_artist: Option<String>,
    pub genres: Option<Vec<String>>,
    pub subtitle: Option<String>,
    pub track_number: Option<u32>,
    pub album_track_count: Option<u32>,
    pub playback_type: Option<PlaybackKind>,
    pub thumbnail_path: Option<String>,
}

impl View for Snapshot {
    type V = SnapshotModel;

    open spec fn view(&self) -> SnapshotModel {
        SnapshotModel {
            title: self.title.deep_view(),
            artist: self.artist.deep_view(),
            album_title: self.album_title.deep_view(),
            album_artist: self.album_artist.deep_view(),
            genres: self.genres.deep_view(),
            subtitle: self.subtitle.deep_view(),
            track_number: self.track_number,
            album_track_count: self.album_track_count,
            playback_type: self.playback_type,
            thumbnail_path: self.thumbnail_path.deep_view(),
        }
    }
}

/// The snapshot a source reading yields: `None` when title and artist are both
/// blank, which stands for "nothing playing".
pub open spec fn normalized_model(
    title: Seq<char>,
    artist: Seq<char>,
    album_title: Option<Seq<char>>,
    album_artist: Option<Seq<char>>,
    subtitle: Option<Seq<char>>,
    track_number: Option<u32>,
    playback_type: Option<PlaybackKind>,
    genres: Seq<Seq<char>>,
) -> Option<SnapshotModel> {
    if all_white(title) && all_white(artist) {
        None
    } else {
        Some(
            SnapshotModel {
                title: Some(title),
                artist: Some(artist),
                album_title,
                album_artist,
                genres: if genres.len() == 0 {
                    None
                } else {
                    Some(genres)
                },
                subtitle,
                track_number,
                album_track_count: None,
                playback_type,
                thumbnail_path: None,
            },
        )
    }
}

impl Snapshot {
    /// The snapshot with every field absent.
    pub fn absent() -> (r: Snapshot)
        ensures
            r@ == absent_model(),
    {
        Snapshot {
            title: None,
            artist: None,
            album_title: None,
            album_artist: None,
            genres: None,
            subtitle: None,
            track_number: None,
            album_track_count: None,
            playback_type: None,
            thumbnail_path: None,
        }
    }

    /// Builds a snapshot from the properties the media source reported.
    /// A reading with blank title and artist is a transient state and yields `None`;
    /// an empty genre list is reported as no genres at all.
    pub fn from_properties(
        title: String,
        artist: String,
        album_title: Option<String>,
        album_artist: Option<String>,
        subtitle: Option<String>,
        track_number: Option<u32>,
        playback_type: Option<PlaybackKind>,
        genres: Vec<String>,
    ) -> (r: Option<Snapshot>)
        ensures
            r.is_none() <==> normalized_model(
                title@,
                artist@,
                album_title.deep_view(),
                album_artist.deep_view(),
                subtitle.deep_view(),
                track_number,
                playback_type,
                genres.deep_view(),
            ).is_none(),
            r matches Some(s) ==> Some(s@) == normalized_model(
                title@,
                artist@,
                album_title.deep_view(),
                album_artist.deep_view(),
                subtitle.deep_view(),
                track_number,
                playback_type,
                genres.deep_view(),
            ),
    {
        let t = trim_str(title.as_str());
        let a = trim_str(artist.as_str());
        proof {
            lemma_trim_empty(t@, title@);
            lemma_trim_empty(a@, artist@);
        }
        let blank_title = t.is_empty();
        let blank_artist = a.is_empty();
        if blank_title && blank_artist {
            return None;
        }
        let genres = if genres.len() == 0 {
            None
        } else {
            Some(genres)
        };
        Some(
            Snapshot {
                title: Some(title),
                artist: Some(artist),
                album_title,
                album_artist,
                genres,
                subtitle,
                track_number,
                album_track_count: None,
                playback_type,
                thumbnail_path: None,
            },
        )
    }
}

} // verus!
