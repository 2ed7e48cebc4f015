use vstd::prelude::*;

use crate::detect::{detect, state_after, StateModel};
use crate::hub::{
    fresh_hub, hub_begin_wait, hub_halt, hub_push, reads_as, released, Field, HubModel,
};
use crate::snapshot::{absent_model, all_white, normalized_model, PlaybackKind, SnapshotModel};

verus! {

/// `a` and `b` agree on every field except possibly `f`.
pub open spec fn agree_except(a: SnapshotModel, b: SnapshotModel, f: Field) -> bool {
    &&& (f != Field::Title ==> a.title == b.title)
    &&& (f != Field::Artist ==> a.artist == b.artist)
    &&& (f != Field::AlbumTitle ==> a.album_title == b.album_title)
    &&& (f != Field::AlbumArtist ==> a.album_artist == b.album_artist)
    &&& (f != Field::Genres ==> a.genres == b.genres)
    &&& (f != Field::Subtitle ==> a.subtitle == b.subtitle)
    &&& (f != Field::TrackNumber ==> a.track_number == b.track_number)
    &&& (f != Field::AlbumTrackCount ==> a.album_track_count == b.album_track_count)
    &&& (f != Field::PlaybackType ==> a.playback_type == b.playback_type)
    &&& (f != Field::Thumbnail ==> a.thumbnail_path == b.thumbnail_path)
}

/// Pushing "nothing playing" into a state whose fields are all absent changes
/// nothing: neither the fields nor the version nor the cancellation flag.
pub proof fn lemma_absent_push_is_noop(s: StateModel)
    requires
        s.fields == absent_model(),
    ensures
        !detect(s.fields, None).1,
        state_after(s, None) == s,
{
}

/// When the incoming snapshot differs from the stored fields in exactly one field
/// `f`, a change is reported; the merged fields hold the incoming value of `f` and
/// the earlier value of every other field.
pub proof fn lemma_single_field_change(current: SnapshotModel, incoming: SnapshotModel, f: Field)
    requires
        agree_except(current, incoming, f),
        current != incoming,
    ensures
        detect(current, Some(incoming)).1,
        detect(current, Some(incoming)).0 == incoming,
        agree_except(detect(current, Some(incoming)).0, current, f),
{
}

/// A reading whose title and artist are both empty or whitespace yields no snapshot,
/// so pushing it acts exactly as pushing "nothing playing".
pub proof fn lemma_blank_reading_is_absent(
    title: Seq<char>,
    artist: Seq<char>,
    album_title: Option<Seq<char>>,
    album_artist: Option<Seq<char>>,
    subtitle: Option<Seq<char>>,
    track_number: Option<u32>,
    playback_type: Option<PlaybackKind>,
    genres: Seq<Seq<char>>,
    s: StateModel,
)
    requires
        all_white(title),
        all_white(artist),
    ensures
        normalized_model(
            title,
            artist,
            album_title,
            album_artist,
            subtitle,
            track_number,
            playback_type,
            genres,
        ) == None::<SnapshotModel>,
        state_after(
            s,
            normalized_model(
                title,
                artist,
                album_title,
                album_artist,
                subtitle,
                track_number,
                playback_type,
                genres,
            ),
        ) == state_after(s, None),
{
}

/// Every waiter that recorded the current version and is blocked is released by an
/// observable change pushed while listening.
pub proof fn lemma_no_lost_wakeup(
    h: HubModel,
    waiters: Seq<u64>,
    incoming: Option<SnapshotModel>,
)
    requires
        h.listening,
        forall|i: int| 0 <= i < waiters.len() ==> waiters[i] == h.state.version,
        detect(h.state.fields, incoming).1,
    ensures
        forall|i: int| 0 <= i < waiters.len() ==> released(hub_push(h, incoming), #[trigger] waiters[i]),
{
}

/// A halt releases every outstanding waiter, whatever version it recorded, and
/// afterwards every field reads as the empty string.
pub proof fn lemma_halt_releases_all(h: HubModel, waiters: Seq<u64>)
    ensures
        forall|i: int| 0 <= i < waiters.len() ==> released(hub_halt(h), #[trigger] waiters[i]),
        forall|f: Field, r: Seq<char>| reads_as(hub_halt(h), f, r) ==> r.len() == 0,
        !hub_halt(h).listening,
{
}

/// Before the first wait, every field reads as the empty string and no watcher
/// has been started.
pub proof fn lemma_gate_before_first_wait()
    ensures
        forall|f: Field, r: Seq<char>| reads_as(fresh_hub(), f, r) ==> r.len() == 0,
        !fresh_hub().watcher_started,
{
}

/// Pushing values identical to the stored ones leaves the hub as it was: the version
/// stays, and a waiter that started before stays blocked.
pub proof fn lemma_identical_push_keeps_waiting(h: HubModel, initial_version: u64)
    requires
        !released(h, initial_version),
    ensures
        hub_push(h, Some(h.state.fields)) == h,
        !released(hub_push(h, Some(h.state.fields)), initial_version),
{
}

/// A wait that begins is not already over: it blocks until a change or a halt.
pub proof fn lemma_new_wait_blocks(h: HubModel)
    ensures
        !released(hub_begin_wait(h), h.state.version),
        hub_begin_wait(h).listening,
{
}

} // verus!
