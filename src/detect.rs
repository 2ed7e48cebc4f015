use vstd::prelude::*;

use crate::snapshot::{absent_model, PlaybackKind, Snapshot, SnapshotModel};

verus! {

pub open spec fn opt_model(o: Option<Snapshot>) -> Option<SnapshotModel> {
    match o {
        Some(s) => Some(s@),
        None => None,
    }
}

/// Change detection: an incoming snapshot replaces the stored fields and counts as a
/// change when any field differs; an incoming `None` clears every field and counts
/// as a change unless everything was already absent.
pub open spec fn detect(current: SnapshotModel, incoming: Option<SnapshotModel>) -> (
    SnapshotModel,
    bool,
) {
    match incoming {
        Some(n) => (n, n != current),
        None => (absent_model(), current != absent_model()),
    }
}

/// The version after an observable change; the counter wraps at its maximum.
pub open spec fn next_version(v: u64) -> u64 {
    if v == u64::MAX {
        0
    } else {
        (v + 1) as u64
    }
}

/// The mathematical value of the shared state.
pub struct StateModel {
    pub fields: SnapshotModel,
    pub version: u64,
    pub cancelled: bool,
}

/// The shared state after a snapshot from the source is pushed into it.
pub open spec fn state_after(s: StateModel, incoming: Option<SnapshotModel>) -> StateModel {
    let (merged, changed) = detect(s.fields, incoming);
    if changed {
        StateModel { fields: merged, version: next_version(s.version), cancelled: false }
    } else {
        s
    }
}

/// The latest merged field values, the change counter and the cancellation flag.
#[derive(Debug)]
pub struct MediaState {
    pub fields: Snapshot,
    pub version: u64,
    pub cancelled: bool,
}

impl View for MediaState {
    type V = StateModel;

    open spec fn view(&self) -> StateModel {
        StateModel { fields: self.fields@, version: self.version, cancelled: self.cancelled }
    }
}

impl MediaState {
    /// The state before anything was observed: all fields absent, version 0.
    pub fn new() -> (r: MediaState)
        ensures
            r@ == (StateModel { fields: absent_model(), version: 0, cancelled: false }),
    {
        MediaState { fields: Snapshot::absent(), version: 0, cancelled: false }
    }
}

/// Whether two optional texts differ.
pub fn any_changed(a: &Option<String>, b: &Option<String>) -> (r: bool)
    ensures
        r == (a.deep_view() != b.deep_view()),
{
    match a {
        Some(x) => match b {
            Some(y) => !x.eq(y),
            None => true,
        },
        None => b.is_some(),
    }
}

fn lists_differ(x: &Vec<String>, y: &Vec<String>) -> (r: bool)
    ensures
        r == (x.deep_view() != y.deep_view()),
{
    assert(x.deep_view().len() == x.len() && y.deep_view().len() == y.len());
    if x.len() != y.len() {
        return true;
    }
    let mut i: usize = 0;
    while i < x.len()
        invariant
            x.len() == y.len(),
            0 <= i <= x.len(),
            forall|k: int| 0 <= k < i ==> x[k]@ == y[k]@,
        decreases x.len() - i,
    {
        let same = x[i].eq(&y[i]);
        if !same {
            assert(x.deep_view()[i as int] != y.deep_view()[i as int]);
            return true;
        }
        i = i + 1;
    }
    assert(x.deep_view() =~= y.deep_view());
    false
}

/// Whether two optional genre lists differ.
pub fn genres_changed(a: &Option<Vec<String>>, b: &Option<Vec<String>>) -> (r: bool)
    ensures
        r == (a.deep_view() != b.deep_view()),
{
    match a {
        Some(x) => match b {
            Some(y) => lists_differ(x, y),
            None => true,
        },
        None => b.is_some(),
    }
}

fn number_changed(a: Option<u32>, b: Option<u32>) -> (r: bool)
    ensures
        r == (a != b),
{
    match a {
        Some(x) => match b {
            Some(y) => x != y,
            None => true,
        },
        None => b.is_some(),
    }
}

fn kind_changed(a: Option<PlaybackKind>, b: Option<PlaybackKind>) -> (r: bool)
    ensures
        r == (a != b),
{
    match a {
        Some(x) => match b {
            Some(y) => x != y,
            None => true,
        },
        None => b.is_some(),
    }
}

/// Pushes a snapshot from the source into the state. Returns whether an observable
/// change happened: then the version has advanced, cancellation is cleared, and the
/// caller must wake every waiter.
pub fn update_state_with(state: &mut MediaState, new: Option<Snapshot>) -> (changed: bool)
    ensures
        final(state)@ == state_after(old(state)@, opt_model(new)),
        changed == detect(old(state)@.fields, opt_model(new)).1,
{
    let ghost incoming = opt_model(new);
    let mut changed = false;
    match new {
        Some(newm) => {
            let Snapshot {
                title,
                artist,
                album_title,
                album_artist,
                genres,
                subtitle,
                track_number,
                album_track_count,
                playback_type,
                thumbnail_path,
            } = newm;
            if any_changed(&state.fields.title, &title) {
                state.fields.title = title;
                changed = true;
            }
            if any_changed(&state.fields.artist, &artist) {
                state.fields.artist = artist;
                changed = true;
            }
            if any_changed(&state.fields.album_title, &album_title) {
                state.fields.album_title = album_title;
                changed = true;
            }
            if any_changed(&state.fields.album_artist, &album_artist) {
                state.fields.album_artist = album_artist;
                changed = true;
            }
            if genres_changed(&state.fields.genres, &genres) {
                state.fields.genres = genres;
                changed = true;
            }
            if any_changed(&state.fields.subtitle, &subtitle) {
                state.fields.subtitle = subtitle;
                changed = true;
            }
            if number_changed(state.fields.track_number, track_number) {
                state.fields.track_number = track_number;
                changed = true;
            }
            if number_changed(state.fields.album_track_count, album_track_count) {
                state.fields.album_track_count = album_track_count;
                changed = true;
            }
            if kind_changed(state.fields.playback_type, playback_type) {
                state.fields.playback_type = playback_type;
                changed = true;
            }
            if any_changed(&state.fields.thumbnail_path, &thumbnail_path) {
                state.fields.thumbnail_path = thumbnail_path;
                changed = true;
            }
            assert(changed ==> state.fields@ == incoming->0);
            assert(!changed ==> old(state).fields@ == incoming->0);
            if changed {
                state.version = state.version.wrapping_add(1);
                state.cancelled = false;
            }
        },
        None => {
            if state.fields.title.is_some() || state.fields.artist.is_some()
                || state.fields.album_title.is_some() || state.fields.album_artist.is_some()
                || state.fields.genres.is_some() || state.fields.subtitle.is_some()
                || state.fields.track_number.is_some()
                || state.fields.album_track_count.is_some()
                || state.fields.playback_type.is_some()
                || state.fields.thumbnail_path.is_some() {
                state.fields = Snapshot::absent();
                state.version = state.version.wrapping_add(1);
                state.cancelled = false;
                changed = true;
            }
        },
    }
    changed
}

} // verus!
