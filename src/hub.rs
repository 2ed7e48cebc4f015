use vstd::prelude::*;

use crate::detect::{detect, opt_model, state_after, update_state_with, MediaState, StateModel};
use crate::snapshot::{
    absent_model, is_trim_of, kind_name, playback_type_to_string, trim_str, Snapshot,
    SnapshotModel,
};

verus! {

/// The fields a consumer can ask for.
#[derive(Clone, Copy, Debug, PartialEq, Eq, Structural)]
pub enum Field {
    Title,
    Artist,
    AlbumTitle,
    AlbumArtist,
    Genres,
    Subtitle,
    TrackNumber,
    AlbumTrackCount,
    PlaybackType,
    Thumbnail,
}

/// The parts in order, with `sep` between each two.
pub open spec fn joined(parts: Seq<Seq<char>>, sep: Seq<char>) -> Seq<char>
    decreases parts.len(),
{
    if parts.len() == 0 {
        seq![]
    } else if parts.len() == 1 {
        parts[0]
    } else {
        joined(parts.drop_last(), sep) + sep + parts.last()
    }
}

pub open spec fn digit_char(d: nat) -> char {
    seq!['0', '1', '2', '3', '4', '5', '6', '7', '8', '9'][d as int]
}

/// The decimal digits of `n`, most significant first, without leading zeros.
pub open spec fn decimal(n: nat) -> Seq<char>
    decreases n,
{
    if n < 10 {
        seq![digit_char(n)]
    } else {
        decimal(n / 10).push(digit_char(n % 10))
    }
}

/// Relies on `[String]::join`: the parts in order, with the separator between each two.
#[verifier::external_body]
fn join_with(parts: &Vec<String>, sep: &str) -> (r: String)
    ensures
        r@ == joined(parts.deep_view(), sep@),
{
    parts.join(sep)
}

/// Relies on `u32`'s `to_string`: its decimal digits.
#[verifier::external_body]
pub(crate) fn decimal_string(n: u32) -> (r: String)
    ensures
        r@ == decimal(n as nat),
{
    n.to_string()
}

/// How an optional text field is presented: trimmed, or empty when unset.
pub open spec fn text_shown(o: Option<Seq<char>>, r: Seq<char>) -> bool {
    match o {
        Some(t) => is_trim_of(r, t),
        None => r.len() == 0,
    }
}

pub open spec fn number_shown(o: Option<u32>) -> Seq<char> {
    match o {
        Some(n) => decimal(n as nat),
        None => seq![],
    }
}

/// `r` is how field `f` of `m` is presented to the host.
pub open spec fn field_shown(m: SnapshotModel, f: Field, r: Seq<char>) -> bool {
    match f {
        Field::Title => text_shown(m.title, r),
        Field::Artist => text_shown(m.artist, r),
        Field::AlbumTitle => text_shown(m.album_title, r),
        Field::AlbumArtist => text_shown(m.album_artist, r),
        Field::Subtitle => text_shown(m.subtitle, r),
        Field::Genres => r == match m.genres {
            Some(g) => joined(g, ", "@),
            None => seq![],
        },
        Field::TrackNumber => r == number_shown(m.track_number),
        Field::AlbumTrackCount => r == number_shown(m.album_track_count),
        Field::PlaybackType => r == match m.playback_type {
            Some(k) => kind_name(k),
            None => seq![],
        },
        Field::Thumbnail => text_shown(m.thumbnail_path, r),
    }
}

/// The mathematical value of the hub.
pub struct HubModel {
    pub state: StateModel,
    pub listening: bool,
    pub watcher_started: bool,
}

/// `r` is what an accessor for `f` answers: empty while nobody is listening.
pub open spec fn reads_as(h: HubModel, f: Field, r: Seq<char>) -> bool {
    if h.listening {
        field_shown(h.state.fields, f, r)
    } else {
        r.len() == 0
    }
}

/// A waiter that recorded `initial_version` may return.
pub open spec fn released(h: HubModel, initial_version: u64) -> bool {
    h.state.version != initial_version || h.state.cancelled
}

pub open spec fn fresh_hub() -> HubModel {
    HubModel {
        state: StateModel { fields: absent_model(), version: 0, cancelled: false },
        listening: false,
        watcher_started: false,
    }
}

/// The hub after an event from the source: ignored while nobody is listening.
pub open spec fn hub_push(h: HubModel, incoming: Option<SnapshotModel>) -> HubModel {
    if h.listening {
        HubModel { state: state_after(h.state, incoming), ..h }
    } else {
        h
    }
}

pub open spec fn hub_halt(h: HubModel) -> HubModel {
    HubModel {
        state: StateModel { cancelled: true, ..h.state },
        listening: false,
        ..h
    }
}

pub open spec fn hub_begin_wait(h: HubModel) -> HubModel {
    HubModel {
        state: StateModel { cancelled: false, ..h.state },
        listening: true,
        watcher_started: true,
    }
}

/// What a new wait needs to know: the version to wait past, and whether it is the
/// first wait, which must start the background watcher.
pub struct WaitTicket {
    pub initial_version: u64,
    pub start_watcher: bool,
}

/// The shared state together with the listening gate and the watcher's start gate.
#[derive(Debug)]
pub struct MediaHub {
    pub state: MediaState,
    pub listening: bool,
    pub watcher_started: bool,
}

impl View for MediaHub {
    type V = HubModel;

    open spec fn view(&self) -> HubModel {
        HubModel {
            state: self.state@,
            listening: self.listening,
            watcher_started: self.watcher_started,
        }
    }
}

/// Makes sure the hub exists, creating it in its initial state on first use.
pub fn ensure_state(slot: &mut Option<MediaHub>)
    ensures
        final(slot).is_some(),
        old(slot).is_some() ==> *final(slot) == *old(slot),
        old(slot).is_none() ==> final(slot).unwrap()@ == fresh_hub(),
{
    if slot.is_none() {
        *slot = Some(MediaHub::new());
    }
}

impl MediaHub {
    pub fn new() -> (r: MediaHub)
        ensures
            r@ == fresh_hub(),
    {
        MediaHub { state: MediaState::new(), listening: false, watcher_started: false }
    }

    pub fn is_listening(&self) -> (r: bool)
        ensures
            r == self.listening,
    {
        self.listening
    }

    /// Arms listening and starts a wait: records the current version and clears
    /// any earlier cancellation. Only the first wait ever asks for the watcher.
    pub fn begin_wait(&mut self) -> (t: WaitTicket)
        ensures
            final(self)@ == hub_begin_wait(old(self)@),
            t.initial_version == old(self).state.version,
            t.start_watcher == !old(self).watcher_started,
    {
        self.listening = true;
        let start_watcher = !self.watcher_started;
        self.watcher_started = true;
        self.state.cancelled = false;
        WaitTicket { initial_version: self.state.version, start_watcher }
    }

    /// Whether a wait that began at `initial_version` is over: the state changed
    /// since, or a halt was requested.
    pub fn wait_finished(&self, initial_version: u64) -> (r: bool)
        ensures
            r == released(self@, initial_version),
    {
        self.state.version != initial_version || self.state.cancelled
    }

    /// Stops listening and cancels every outstanding wait; the caller wakes them all.
    /// Field values are kept.
    pub fn halt(&mut self)
        ensures
            final(self)@ == hub_halt(old(self)@),
    {
        self.listening = false;
        self.state.cancelled = true;
    }

    /// Handles a reading of the source. Returns whether the waiters must be woken.
    pub fn push(&mut self, incoming: Option<Snapshot>) -> (changed: bool)
        ensures
            final(self)@ == hub_push(old(self)@, opt_model(incoming)),
            changed == (old(self).listening && detect(old(self)@.state.fields, opt_model(incoming)).1),
    {
        if !self.listening {
            return false;
        }
        update_state_with(&mut self.state, incoming)
    }

    /// The presented value of one field, or the empty string while nobody listens.
    pub fn field_text(&self, field: Field) -> (r: String)
        ensures
            reads_as(self@, field, r@),
    {
        if !self.listening {
            return String::new();
        }
        let fields = &self.state.fields;
        match field {
            Field::Title => trimmed_text(&fields.title),
            Field::Artist => trimmed_text(&fields.artist),
            Field::AlbumTitle => trimmed_text(&fields.album_title),
            Field::AlbumArtist => trimmed_text(&fields.album_artist),
            Field::Subtitle => trimmed_text(&fields.subtitle),
            Field::Genres => match &fields.genres {
                Some(g) => join_with(g, ", "),
                None => String::new(),
            },
            Field::TrackNumber => number_text(fields.track_number),
            Field::AlbumTrackCount => number_text(fields.album_track_count),
            Field::PlaybackType => match fields.playback_type {
                Some(k) => playback_type_to_string(k).to_owned(),
                None => String::new(),
            },
            Field::Thumbnail => trimmed_text(&fields.thumbnail_path),
        }
    }

    pub fn title(&self) -> (r: String)
        ensures
            reads_as(self@, Field::Title, r@),
    {
        self.field_text(Field::Title)
    }

    pub fn artist(&self) -> (r: String)
        ensures
            reads_as(self@, Field::Artist, r@),
    {
        self.field_text(Field::Artist)
    }

    pub fn albumtitle(&self) -> (r: String)
        ensures
            reads_as(self@, Field::AlbumTitle, r@),
    {
        self.field_text(Field::AlbumTitle)
    }

    pub fn albumartist(&self) -> (r: String)
        ensures
            reads_as(self@, Field::AlbumArtist, r@),
    {
        self.field_text(Field::AlbumArtist)
    }

    pub fn genres(&self) -> (r: String)
        ensures
            reads_as(self@, Field::Genres, r@),
    {
        self.field_text(Field::Genres)
    }

    pub fn subtitle(&self) -> (r: String)
        ensures
            reads_as(self@, Field::Subtitle, r@),
    {
        self.field_text(Field::Subtitle)
    }

    pub fn tracknumber(&self) -> (r: String)
        ensures
            reads_as(self@, Field::TrackNumber, r@),
    {
        self.field_text(Field::TrackNumber)
    }

    pub fn albumtrackcount(&self) -> (r: String)
        ensures
            reads_as(self@, Field::AlbumTrackCount, r@),
    {
        self.field_text(Field::AlbumTrackCount)
    }

    pub fn playbacktype(&self) -> (r: String)
        ensures
            reads_as(self@, Field::PlaybackType, r@),
    {
        self.field_text(Field::PlaybackType)
    }

    pub fn thumbnail(&self) -> (r: String)
        ensures
            reads_as(self@, Field::Thumbnail, r@),
    {
        self.field_text(Field::Thumbnail)
    }
}

fn trimmed_text(o: &Option<String>) -> (r: String)
    ensures
        text_shown(o.deep_view(), r@),
{
    match o {
        Some(s) => trim_str(s.as_str()).to_owned(),
        None => String::new(),
    }
}

fn number_text(o: Option<u32>) -> (r: String)
    ensures
        r@ == number_shown(o),
{
    match o {
        Some(n) => decimal_string(n),
        None => String::new(),
    }
}

} // verus!
