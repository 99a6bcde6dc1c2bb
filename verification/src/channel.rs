//! In-memory channels.
use crate::alternate_player::{PlaybackEvent, PlayerCommand};
use crate::lms::LMSEvent;
use crate::spotify_id::{SpotifyAudioType, SpotifyId};
use futures::sync::mpsc::{UnboundedReceiver, UnboundedSender};
use librespot::playback::player::PlayerEvent;
use vstd::prelude::*;

verus! {

#[verifier::external_type_specification]
#[verifier::external_body]
#[verifier::reject_recursive_types(T)]
pub struct ExUnboundedSender<T>(futures::sync::mpsc::UnboundedSender<T>);

#[verifier::external_type_specification]
#[verifier::external_body]
#[verifier::reject_recursive_types(T)]
pub struct ExUnboundedReceiver<T>(futures::sync::mpsc::UnboundedReceiver<T>);

#[verifier::external_type_specification]
#[verifier::external_body]
pub struct ExPlayerEvent(librespot::playback::player::PlayerEvent);

/// Whether the two are the ends of one channel: what the sender takes arrives at
/// the receiver.
pub uninterp spec fn carries_commands(
    sender: UnboundedSender<PlayerCommand>,
    receiver: UnboundedReceiver<PlayerCommand>,
) -> bool;

/// Calls `futures::sync::mpsc::unbounded`, which makes the two ends of a new
/// channel, for commands.
#[verifier::external_body]
pub(crate) fn command_channel() -> (ends: (
    UnboundedSender<PlayerCommand>,
    UnboundedReceiver<PlayerCommand>,
))
    ensures
        carries_commands(ends.0, ends.1),
{
    futures::sync::mpsc::unbounded()
}

/// Whether the two are the ends of one channel: what the sender takes arrives at
/// the receiver.
pub uninterp spec fn carries_reports(
    sender: UnboundedSender<LMSEvent>,
    receiver: UnboundedReceiver<LMSEvent>,
) -> bool;

/// Calls `futures::sync::mpsc::unbounded`, which makes the two ends of a new
/// channel, for what the server reports.
#[verifier::external_body]
pub(crate) fn report_channel() -> (ends: (UnboundedSender<LMSEvent>, UnboundedReceiver<LMSEvent>))
    ensures
        carries_reports(ends.0, ends.1),
{
    futures::sync::mpsc::unbounded()
}

/// The events that were handed to this end of a channel so far, the oldest first, each
/// with whether the channel took it.
pub uninterp spec fn offered(sender: UnboundedSender<PlayerEvent>) -> Seq<(PlaybackEvent, bool)>;

/// Whether the two are the ends of one channel: what the sender takes arrives at
/// the receiver.
pub uninterp spec fn carries_events(
    sender: UnboundedSender<PlayerEvent>,
    receiver: UnboundedReceiver<PlayerEvent>,
) -> bool;

/// Calls `futures::sync::mpsc::UnboundedSender::unbounded_send` with the event as
/// librespot has it. The event is handed to this channel, which stays the one that it
/// was, once; the result says whether the channel took it. The channel takes it just if
/// its receiver is still there. That is not stated, for the receiver is in other hands
/// and may go at any time. (The call would panic if more than half of `usize::MAX`
/// messages were waiting, for which there is no memory.)
#[verifier::external_body]
pub(crate) fn hand_over(sender: &mut UnboundedSender<PlayerEvent>, event: PlaybackEvent) -> (taken: bool)
    ensures
        offered(*final(sender)) == offered(*old(sender)).push((event, taken)),
        forall|receiver: UnboundedReceiver<PlayerEvent>| #[trigger]
            carries_events(*final(sender), receiver) == carries_events(*old(sender), receiver),
{
    let to_id = |id: SpotifyId| librespot::core::spotify_id::SpotifyId {
        id: id.id,
        audio_type: match id.audio_type {
            SpotifyAudioType::Track => librespot::core::spotify_id::SpotifyAudioType::Track,
            SpotifyAudioType::Podcast => librespot::core::spotify_id::SpotifyAudioType::Podcast,
            SpotifyAudioType::NonPlayable => librespot::core::spotify_id::SpotifyAudioType::NonPlayable,
        },
    };
    let message = match event {
        PlaybackEvent::Loading { play_request_id, track_id, position_ms } => PlayerEvent::Loading { play_request_id, track_id: to_id(track_id), position_ms },
        PlaybackEvent::Playing { play_request_id, track_id, position_ms, duration_ms } => PlayerEvent::Playing { play_request_id, track_id: to_id(track_id), position_ms, duration_ms },
        PlaybackEvent::Paused { play_request_id, track_id, position_ms, duration_ms } => PlayerEvent::Paused { play_request_id, track_id: to_id(track_id), position_ms, duration_ms },
    };
    sender.unbounded_send(message).is_ok()
}

} // verus!
