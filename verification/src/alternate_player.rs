//! A player for Spotify Connect that leaves the playing to the server: commands
//! are passed on to it, and what it reports becomes the player's own events.
use crate::channel::{command_channel, hand_over, report_channel};
use crate::lms::{LMSEvent, PostRequest, LMS};
use crate::spotify_id::SpotifyId;
use futures::sync::mpsc::{UnboundedReceiver, UnboundedSender};
use librespot::playback::player::PlayerEvent;
use vstd::prelude::*;
use vstd::string::*;

verus! {

/// What the player tells Spotify Connect.
#[derive(Clone, Copy, Debug, PartialEq, Eq)]
pub enum PlaybackEvent {
    Loading { play_request_id: u64, track_id: SpotifyId, position_ms: u32 },
    Playing { play_request_id: u64, track_id: SpotifyId, position_ms: u32, duration_ms: u32 },
    Paused { play_request_id: u64, track_id: SpotifyId, position_ms: u32, duration_ms: u32 },
}

/// What Spotify Connect asks of the player.
pub enum PlayerCommand {
    Load { track_id: SpotifyId, play_request_id: u64, play: bool, position_ms: u32 },
    Preload { track_id: SpotifyId },
    Play,
    Pause,
    Stop,
    Seek(u32),
    AddEventSender(UnboundedSender<PlayerEvent>),
    SetSinkEventCallback,
    EmitVolumeSetEvent(u16),
}

/// Which track is played, and which one is on its way.
pub struct TrackState {
    pub load_track_id: Option<SpotifyId>,
    pub current_play_request_id: u64,
    pub load_play_request_id: u64,
    pub current_track_id: Option<SpotifyId>,
    pub current_play_id: String,
}

/// A [`TrackState`] with its text as a sequence of characters.
#[verifier::ext_equal]
pub struct TrackView {
    pub load_track_id: Option<SpotifyId>,
    pub current_play_request_id: u64,
    pub load_play_request_id: u64,
    pub current_track_id: Option<SpotifyId>,
    pub current_play_id: Seq<char>,
}

impl TrackView {
    /// Nothing is played and nothing is on its way.
    pub open spec fn initial() -> TrackView {
        TrackView {
            load_track_id: None,
            current_play_request_id: 0,
            load_play_request_id: 0,
            current_track_id: None,
            current_play_id: Seq::empty(),
        }
    }

    /// Only a track has a request, and only a played track has a play identifier.
    pub open spec fn wf(self) -> bool {
        &&& self.load_track_id is None ==> self.load_play_request_id == 0
        &&& self.current_track_id is None ==> {
            &&& self.current_play_request_id == 0
            &&& self.current_play_id == Seq::<char>::empty()
        }
    }

    /// The state after a request to load `track_id`. The track that is played
    /// already is not loaded again.
    pub open spec fn loading(self, track_id: SpotifyId, play_request_id: u64) -> TrackView {
        if self.current_track_id == Some(track_id) {
            self
        } else {
            TrackView {
                load_track_id: Some(track_id),
                load_play_request_id: play_request_id,
                ..self
            }
        }
    }

    /// The state after the server has reported a track. The first report of
    /// another track than the one that is played is that of the track on its way.
    pub open spec fn reported(self, play_id: Seq<char>) -> TrackView {
        if play_id != self.current_play_id && self.load_track_id is Some {
            TrackView {
                load_track_id: None,
                current_play_request_id: self.load_play_request_id,
                load_play_request_id: 0,
                current_track_id: self.load_track_id,
                current_play_id: play_id,
            }
        } else {
            self
        }
    }

    /// The state after an event of the server.
    pub open spec fn after_event(self, event: crate::lms::LMSEventView) -> TrackView {
        match event {
            crate::lms::LMSEventView::Stopped => self,
            crate::lms::LMSEventView::Playing { play_id, .. } => self.reported(play_id),
            crate::lms::LMSEventView::Paused { play_id, .. } => self.reported(play_id),
        }
    }

    /// What is told of an event of the server, in the state that it led to: only
    /// events of the track that is played count.
    pub open spec fn event_for(self, event: crate::lms::LMSEventView) -> Option<PlaybackEvent> {
        match (event, self.current_track_id) {
            (
                crate::lms::LMSEventView::Playing { position_ms, play_id },
                Some(track_id),
            ) if play_id == self.current_play_id => Some(
                PlaybackEvent::Playing {
                    play_request_id: self.current_play_request_id,
                    track_id,
                    position_ms,
                    duration_ms: 0,
                },
            ),
            (
                crate::lms::LMSEventView::Paused { position_ms, play_id },
                Some(track_id),
            ) if play_id == self.current_play_id => Some(
                PlaybackEvent::Paused {
                    play_request_id: self.current_play_request_id,
                    track_id,
                    position_ms,
                    duration_ms: 0,
                },
            ),
            _ => None,
        }
    }
}

impl View for TrackState {
    type V = TrackView;

    open spec fn view(&self) -> TrackView {
        TrackView {
            load_track_id: self.load_track_id,
            current_play_request_id: self.current_play_request_id,
            load_play_request_id: self.load_play_request_id,
            current_track_id: self.current_track_id,
            current_play_id: self.current_play_id@,
        }
    }
}

impl TrackState {
    /// Nothing is played and nothing is on its way.
    pub fn new() -> (state: TrackState)
        ensures
            state@ == TrackView::initial(),
    {
        TrackState {
            load_track_id: None,
            load_play_request_id: 0,
            current_play_request_id: 0,
            current_track_id: None,
            current_play_id: String::new(),
        }
    }

    /// Takes a report of the server into account.
    fn report(&mut self, play_id: &String)
        ensures
            final(self)@ == old(self)@.reported(play_id@),
    {
        if *play_id != self.current_play_id {
            if self.load_track_id.is_some() {
                // The first report after the track was loaded: from now on this
                // is the track that progress is told of.
                self.current_play_id = play_id.clone();
                self.current_track_id = self.load_track_id;
                self.current_play_request_id = self.load_play_request_id;
                self.load_track_id = None;
                self.load_play_request_id = 0;
            }
        }
    }
}

/// Whether `after` is the channel `before`, once `event` was handed to it; `taken` says
/// whether it took the event.
pub open spec fn handed_over(
    before: UnboundedSender<PlayerEvent>,
    after: UnboundedSender<PlayerEvent>,
    event: PlaybackEvent,
    taken: bool,
) -> bool {
    &&& crate::channel::offered(after) == crate::channel::offered(before).push((event, taken))
    &&& forall|receiver: UnboundedReceiver<PlayerEvent>| #[trigger]
        crate::channel::carries_events(after, receiver) == crate::channel::carries_events(
            before,
            receiver,
        )
}

/// Those of the channels for which `taken` holds, in their order.
pub open spec fn kept(
    tried: Seq<UnboundedSender<PlayerEvent>>,
    taken: Seq<bool>,
) -> Seq<UnboundedSender<PlayerEvent>>
    decreases tried.len(),
{
    if tried.len() == 0 {
        Seq::empty()
    } else {
        let rest = kept(tried.drop_last(), taken.drop_last());
        if taken[tried.len() - 1] {
            rest.push(tried.last())
        } else {
            rest
        }
    }
}

/// Whether `tried` are the channels `before`, once `event` was handed to each of them;
/// `taken` says which of them took the event.
pub open spec fn handed_to_all(
    before: Seq<UnboundedSender<PlayerEvent>>,
    tried: Seq<UnboundedSender<PlayerEvent>>,
    taken: Seq<bool>,
    event: PlaybackEvent,
) -> bool {
    &&& tried.len() == before.len()
    &&& taken.len() == before.len()
    &&& forall|i: int|
        0 <= i < before.len() ==> handed_over(before[i], #[trigger] tried[i], event, taken[i])
}

/// Whether `event` was handed to every channel, once, and just those were kept that
/// took it.
pub open spec fn sent(
    before: Seq<UnboundedSender<PlayerEvent>>,
    after: Seq<UnboundedSender<PlayerEvent>>,
    event: PlaybackEvent,
) -> bool {
    exists|tried: Seq<UnboundedSender<PlayerEvent>>, taken: Seq<bool>|
        #[trigger] handed_to_all(before, tried, taken, event) && after == kept(tried, taken)
}

/// The player behind [`Player`].
pub struct PlayerInternal {
    pub event_senders: Vec<UnboundedSender<PlayerEvent>>,
    pub lms: LMS,
    pub track_state: TrackState,
}

/// A [`PlayerInternal`] with its parts as mathematical values.
#[verifier::ext_equal]
pub struct PlayerView {
    pub event_senders: Seq<UnboundedSender<PlayerEvent>>,
    pub lms: crate::lms::LMSView,
    pub track_state: TrackView,
}

impl View for PlayerInternal {
    type V = PlayerView;

    open spec fn view(&self) -> PlayerView {
        PlayerView {
            event_senders: self.event_senders@,
            lms: self.lms@,
            track_state: self.track_state@,
        }
    }
}

/// The command by which the server starts to play `track_id`.
pub open spec fn start_command(track_id: SpotifyId) -> Seq<char> {
    "[\"spottyconnect\",\"start\",\""@ + crate::spotify_id::base62(
        track_id.id as int,
        crate::spotify_id::BASE62_LEN as nat,
    ) + "\"]"@
}

/// The command by which the server learns of `cmd`.
pub open spec fn command_text(cmd: PlayerCommand) -> Option<Seq<char>> {
    match cmd {
        PlayerCommand::Load { track_id, play: true, .. } => Some(start_command(track_id)),
        PlayerCommand::Play => Some("[\"spottyconnect\",\"start\"]"@),
        PlayerCommand::Pause => Some("[\"spottyconnect\",\"stop\"]"@),
        PlayerCommand::Stop => Some("[\"spottyconnect\",\"stop\"]"@),
        PlayerCommand::Seek(_) => Some("[\"spottyconnect\",\"change\"]"@),
        _ => None,
    }
}

impl PlayerView {
    /// Whether `command`, where there is one, can be posted to the server. A
    /// server without a player is not asked.
    pub open spec fn postable(self, command: Option<Seq<char>>) -> bool {
        command is Some && self.lms.configured() ==> self.lms.addressable()
    }

    /// The request that posts `command`, where there is one.
    pub open spec fn command_request(
        self,
        command: Option<Seq<char>>,
    ) -> Option<crate::lms::PostRequestView> {
        match command {
            Some(command) => self.lms.command_request(command),
            None => None,
        }
    }
}

/// Whether the channels were told of `event`, where there is one, and were left
/// alone otherwise.
pub open spec fn told(
    before: Seq<UnboundedSender<PlayerEvent>>,
    after: Seq<UnboundedSender<PlayerEvent>>,
    event: Option<PlaybackEvent>,
) -> bool {
    match event {
        Some(event) => sent(before, after, event),
        None => after == before,
    }
}

/// The player before and after a command, and the request that it leads to.
pub open spec fn command_handled(
    before: PlayerView,
    cmd: PlayerCommand,
    after: PlayerView,
    request: Option<crate::lms::PostRequestView>,
) -> bool {
    &&& request == before.command_request(command_text(cmd))
    &&& after.lms == before.lms
    &&& match cmd {
        PlayerCommand::Load { track_id, play_request_id, play, position_ms } => {
            &&& after.track_state == before.track_state.loading(track_id, play_request_id)
            &&& told(
                before.event_senders,
                after.event_senders,
                if before.track_state.current_track_id == Some(track_id) {
                    None
                } else {
                    Some(PlaybackEvent::Loading { play_request_id, track_id, position_ms })
                },
            )
        },
        PlayerCommand::AddEventSender(sender) => {
            &&& after.track_state == before.track_state
            &&& after.event_senders == before.event_senders.push(sender)
        },
        _ => {
            &&& after.track_state == before.track_state
            &&& after.event_senders == before.event_senders
        },
    }
}

/// The player before and after an event of the server.
pub open spec fn event_handled(
    before: PlayerView,
    event: crate::lms::LMSEventView,
    after: PlayerView,
) -> bool {
    &&& after.lms == before.lms
    &&& after.track_state == before.track_state.after_event(event)
    &&& told(before.event_senders, after.event_senders, after.track_state.event_for(event))
}

impl PlayerInternal {
    /// What becomes of the channel at `index` after an event was handed to it:
    /// it stays if it took the event. Gives the place of the next channel.
    pub fn settle(&mut self, index: usize, taken: bool) -> (next: usize)
        requires
            index < old(self).event_senders.len(),
        ensures
            next == (if taken {
                index + 1
            } else {
                index as int
            }),
            final(self).event_senders@ == (if taken {
                old(self).event_senders@
            } else {
                old(self).event_senders@.remove(index as int)
            }),
            final(self).lms == old(self).lms,
            final(self).track_state == old(self).track_state,
    {
        if taken {
            index + 1
        } else {
            self.event_senders.remove(index);
            index
        }
    }

    /// Tells everyone who listens.
    pub fn send_event(&mut self, event: PlaybackEvent)
        ensures
            sent(old(self).event_senders@, final(self).event_senders@, event),
            final(self).lms == old(self).lms,
            final(self).track_state == old(self).track_state,
    {
        let mut index: usize = 0;
        let ghost first = self.event_senders@;
        let ghost mut tried: Seq<UnboundedSender<PlayerEvent>> = Seq::empty();
        let ghost mut taken_so_far: Seq<bool> = Seq::empty();
        while index < self.event_senders.len()
            invariant
                index <= self.event_senders@.len(),
                tried.len() + self.event_senders@.len() - index == first.len(),
                self.event_senders@.skip(index as int) == first.skip(tried.len() as int),
                handed_to_all(first.take(tried.len() as int), tried, taken_so_far, event),
                self.event_senders@.take(index as int) == kept(tried, taken_so_far),
                self.lms == old(self).lms,
                self.track_state == old(self).track_state,
            decreases self.event_senders@.len() - index,
        {
            let ghost done = tried.len() as int;
            assert(first[done] == first.skip(done)[0]);
            let taken = hand_over(&mut self.event_senders[index], event);
            let ghost end = self.event_senders@[index as int];
            index = self.settle(index, taken);
            proof {
                assert(tried.push(end).drop_last() =~= tried);
                assert(taken_so_far.push(taken).drop_last() =~= taken_so_far);
                assert(first.skip(done + 1) =~= first.skip(done).drop_first());
                tried = tried.push(end);
                taken_so_far = taken_so_far.push(taken);
            }
        }
        proof {
            assert(self.event_senders@.take(index as int) =~= self.event_senders@);
            assert(first.take(tried.len() as int) =~= first);
        }
    }

    /// Does what Spotify Connect asks. Gives the request that is to be posted to
    /// the server, if there is one.
    pub fn handle_command(&mut self, cmd: PlayerCommand) -> (request: Option<PostRequest>)
        requires
            old(self)@.postable(command_text(cmd)),
        ensures
            command_handled(old(self)@, cmd, final(self)@, crate::lms::request_of(request)),
    {
        match cmd {
            PlayerCommand::Load { track_id, play_request_id, play, position_ms } => {
                self.handle_command_load(track_id, play_request_id, play, position_ms)
            },
            PlayerCommand::Preload { track_id } => self.handle_command_preload(track_id),
            PlayerCommand::Seek(position_ms) => self.handle_command_seek(position_ms),
            PlayerCommand::Play => self.handle_command_play(),
            PlayerCommand::Pause => self.handle_command_pause(),
            PlayerCommand::Stop => self.handle_command_stop(),
            PlayerCommand::AddEventSender(sender) => {
                self.event_senders.push(sender);
                None
            },
            PlayerCommand::SetSinkEventCallback => self.handle_command_setsinkcallback(),
            PlayerCommand::EmitVolumeSetEvent(volume) => self.handle_command_volume(volume),
        }
    }

    /// The server has a sink of its own.
    fn handle_command_setsinkcallback(&mut self) -> (request: Option<PostRequest>)
        ensures
            *final(self) == *old(self),
            request is None,
    {
        None
    }

    /// The server loads its tracks by itself.
    fn handle_command_preload(&mut self, _track_id: SpotifyId) -> (request: Option<PostRequest>)
        ensures
            *final(self) == *old(self),
            request is None,
    {
        None
    }

    /// Comes when a Spotify client connects, then without `play`, and for every
    /// track that is chosen or follows the one before, then with `play`.
    pub fn handle_command_load(
        &mut self,
        track_id: SpotifyId,
        play_request_id: u64,
        play: bool,
        position_ms: u32,
    ) -> (request: Option<PostRequest>)
        requires
            play ==> old(self)@.postable(Some(start_command(track_id))),
        ensures
            command_handled(
                old(self)@,
                (PlayerCommand::Load { track_id, play_request_id, play, position_ms }),
                final(self)@,
                crate::lms::request_of(request),
            ),
    {
        let load_new_track = match self.track_state.current_track_id {
            Some(current_track_id) => current_track_id != track_id,
            None => true,
        };
        if load_new_track {
            self.track_state.load_track_id = Some(track_id);
            self.track_state.load_play_request_id = play_request_id;
            // The track takes a while to load.
            self.send_event(PlaybackEvent::Loading { play_request_id, track_id, position_ms });
        }
        if play {
            let mut command = "[\"spottyconnect\",\"start\",\"".to_owned();
            command.append(track_id.to_base62().as_str());
            command.append("\"]");
            self.lms.send_command(command.as_str())
        } else {
            None
        }
    }

    /// A start without a track resumes playback.
    fn handle_command_play(&mut self) -> (request: Option<PostRequest>)
        requires
            old(self)@.postable(Some("[\"spottyconnect\",\"start\"]"@)),
        ensures
            *final(self) == *old(self),
            crate::lms::request_of(request) == old(self)@.lms.command_request(
                "[\"spottyconnect\",\"start\"]"@,
            ),
    {
        self.lms.send_command("[\"spottyconnect\",\"start\"]")
    }

    /// The server takes a stop for a pause.
    fn handle_command_pause(&self) -> (request: Option<PostRequest>)
        requires
            self@.postable(Some("[\"spottyconnect\",\"stop\"]"@)),
        ensures
            crate::lms::request_of(request) == self@.lms.command_request(
                "[\"spottyconnect\",\"stop\"]"@,
            ),
    {
        self.lms.send_command("[\"spottyconnect\",\"stop\"]")
    }

    /// The server finds the new position by itself.
    fn handle_command_seek(&self, _position_ms: u32) -> (request: Option<PostRequest>)
        requires
            self@.postable(Some("[\"spottyconnect\",\"change\"]"@)),
        ensures
            crate::lms::request_of(request) == self@.lms.command_request(
                "[\"spottyconnect\",\"change\"]"@,
            ),
    {
        self.lms.send_command("[\"spottyconnect\",\"change\"]")
    }

    fn handle_command_stop(&self) -> (request: Option<PostRequest>)
        requires
            self@.postable(Some("[\"spottyconnect\",\"stop\"]"@)),
        ensures
            crate::lms::request_of(request) == self@.lms.command_request(
                "[\"spottyconnect\",\"stop\"]"@,
            ),
    {
        self.lms.send_command("[\"spottyconnect\",\"stop\"]")
    }

    /// The server ignores the volume.
    fn handle_command_volume(&mut self, _volume: u16) -> (request: Option<PostRequest>)
        ensures
            *final(self) == *old(self),
            request is None,
    {
        None
    }

    /// Follows what the server reports.
    pub fn handle_lms_event(&mut self, event: LMSEvent)
        ensures
            event_handled(old(self)@, event@, final(self)@),
    {
        match event {
            LMSEvent::Playing { position_ms, play_id } => {
                self.track_state.report(&play_id);
                if let Some(track_id) = self.track_state.current_track_id {
                    if self.track_state.current_play_id == play_id {
                        let play_request_id = self.track_state.current_play_request_id;
                        self.send_event(
                            PlaybackEvent::Playing {
                                play_request_id,
                                track_id,
                                position_ms,
                                duration_ms: 0,
                            },
                        );
                    }
                }
            },
            LMSEvent::Stopped => {},
            LMSEvent::Paused { position_ms, play_id } => {
                self.track_state.report(&play_id);
                if let Some(track_id) = self.track_state.current_track_id {
                    if self.track_state.current_play_id == play_id {
                        let play_request_id = self.track_state.current_play_request_id;
                        self.send_event(
                            PlaybackEvent::Paused {
                                play_request_id,
                                track_id,
                                position_ms,
                                duration_ms: 0,
                            },
                        );
                    }
                }
            },
        }
    }
}

/// How long to wait before the server is asked for its state again.
pub const PING_SECONDS: u64 = 1;

/// What polling a channel gave.
pub enum Polled<T> {
    /// Nothing will come any more.
    Closed,
    Item(T),
    NotReady,
    Failed,
}

/// What is polled next. A round starts with the commands; `progress` says whether
/// something was found in this round.
#[derive(Clone, Copy, Debug, PartialEq, Eq)]
pub enum PollRound {
    Commands,
    Pinger { progress: bool },
    LmsEvents { progress: bool },
}

/// What polling gave. Of the pinger it says whether its time is up.
pub enum PollInput {
    Commands(Polled<PlayerCommand>),
    Pinger(bool),
    LmsEvents(Polled<LMSEvent>),
}

/// What is to be done before the next source is polled.
pub enum Effect {
    Nothing,
    /// Post the request; the answer does not matter.
    Post(PostRequest),
    /// Post the request, if there is one, and take its answer for a
    /// [`crate::lms::PlayerStatus`]. Then set the pinger again.
    Ping { query: Option<PostRequest>, reset_seconds: u64 },
}

/// What follows from what polling gave.
pub enum PollStep {
    Next { round: PollRound, effect: Effect },
    /// Nothing was found in this round: wait.
    NotReady,
    /// The player is done.
    Finished,
}

/// An [`Effect`] with its texts as sequences of characters.
pub enum EffectView {
    Nothing,
    Post(crate::lms::PostRequestView),
    Ping { query: Option<crate::lms::PostRequestView>, reset_seconds: u64 },
}

/// A [`PollStep`] with its texts as sequences of characters.
pub enum PollStepView {
    Next { round: PollRound, effect: EffectView },
    NotReady,
    Finished,
}

impl View for Effect {
    type V = EffectView;

    open spec fn view(&self) -> EffectView {
        match *self {
            Effect::Nothing => EffectView::Nothing,
            Effect::Post(request) => EffectView::Post(request@),
            Effect::Ping { query, reset_seconds } => EffectView::Ping {
                query: crate::lms::request_of(query),
                reset_seconds,
            },
        }
    }
}

impl View for PollStep {
    type V = PollStepView;

    open spec fn view(&self) -> PollStepView {
        match *self {
            PollStep::Next { round, effect } => PollStepView::Next { round, effect: effect@ },
            PollStep::NotReady => PollStepView::NotReady,
            PollStep::Finished => PollStepView::Finished,
        }
    }
}

/// Whether `input` comes from the source that is polled in `round`.
pub open spec fn answers(round: PollRound, input: PollInput) -> bool {
    match round {
        PollRound::Commands => input is Commands,
        PollRound::Pinger { .. } => input is Pinger,
        PollRound::LmsEvents { .. } => input is LmsEvents,
    }
}

/// What a request for the server amounts to.
pub open spec fn post_effect(request: Option<crate::lms::PostRequestView>) -> EffectView {
    match request {
        Some(request) => EffectView::Post(request),
        None => EffectView::Nothing,
    }
}

/// What follows from `input`. A closed channel ends the player; otherwise all
/// three sources are gone through in turn, until a round finds nothing.
pub open spec fn next_step(before: PlayerView, round: PollRound, input: PollInput) -> PollStepView {
    match (round, input) {
        (_, PollInput::Commands(Polled::Closed)) => PollStepView::Finished,
        (_, PollInput::Commands(Polled::Item(cmd))) => PollStepView::Next {
            round: PollRound::Pinger { progress: true },
            effect: post_effect(before.command_request(command_text(cmd))),
        },
        (_, PollInput::Commands(_)) => PollStepView::Next {
            round: PollRound::Pinger { progress: false },
            effect: EffectView::Nothing,
        },
        (PollRound::Pinger { progress }, PollInput::Pinger(elapsed)) => PollStepView::Next {
            round: PollRound::LmsEvents { progress: progress || elapsed },
            effect: if elapsed {
                EffectView::Ping {
                    query: before.lms.status_request(),
                    reset_seconds: PING_SECONDS,
                }
            } else {
                EffectView::Nothing
            },
        },
        (_, PollInput::LmsEvents(Polled::Closed)) => PollStepView::Finished,
        (PollRound::LmsEvents { progress }, PollInput::LmsEvents(polled)) => if progress
            || polled is Item {
            PollStepView::Next { round: PollRound::Commands, effect: EffectView::Nothing }
        } else {
            PollStepView::NotReady
        },
        _ => arbitrary(),
    }
}

/// The player before and after `input`.
pub open spec fn input_handled(before: PlayerView, input: PollInput, after: PlayerView) -> bool {
    match input {
        PollInput::Commands(Polled::Item(cmd)) => command_handled(
            before,
            cmd,
            after,
            before.command_request(command_text(cmd)),
        ),
        PollInput::LmsEvents(Polled::Item(event)) => event_handled(before, event@, after),
        _ => after == before,
    }
}

/// Whether what `input` asks for can be posted to the server.
pub open spec fn input_postable(before: PlayerView, input: PollInput) -> bool {
    match input {
        PollInput::Commands(Polled::Item(cmd)) => before.postable(command_text(cmd)),
        PollInput::Pinger(true) => before.lms.addressable(),
        _ => true,
    }
}

impl PlayerInternal {
    /// Whether what `input` asks for can be posted to the server.
    pub fn is_postable(&self, input: &PollInput) -> (postable: bool)
        ensures
            postable == input_postable(self@, *input),
    {
        match input {
            PollInput::Commands(Polled::Item(cmd)) => {
                let posts = match cmd {
                    PlayerCommand::Load { play, .. } => *play,
                    PlayerCommand::Play
                    | PlayerCommand::Pause
                    | PlayerCommand::Stop
                    | PlayerCommand::Seek(_) => true,
                    _ => false,
                };
                !posts || !self.lms.is_configured() || self.lms.is_addressable()
            },
            PollInput::Pinger(true) => self.lms.is_addressable(),
            _ => true,
        }
    }

    /// Takes what polling the source of `round` gave, and says what to do and what
    /// to poll next.
    pub fn poll(&mut self, round: PollRound, input: PollInput) -> (step: PollStep)
        requires
            answers(round, input),
            input_postable(old(self)@, input),
        ensures
            step@ == next_step(old(self)@, round, input),
            input_handled(old(self)@, input, final(self)@),
    {
        match input {
            PollInput::Commands(polled) => match polled {
                // The client is gone.
                Polled::Closed => PollStep::Finished,
                Polled::Item(cmd) => {
                    let effect = match self.handle_command(cmd) {
                        Some(request) => Effect::Post(request),
                        None => Effect::Nothing,
                    };
                    PollStep::Next { round: PollRound::Pinger { progress: true }, effect }
                },
                Polled::NotReady | Polled::Failed => PollStep::Next {
                    round: PollRound::Pinger { progress: false },
                    effect: Effect::Nothing,
                },
            },
            PollInput::Pinger(elapsed) => {
                let progress = match round {
                    PollRound::Pinger { progress } => progress,
                    _ => vstd::pervasive::unreached(),
                };
                if elapsed {
                    let query = self.lms.poll_state();
                    PollStep::Next {
                        round: PollRound::LmsEvents { progress: true },
                        effect: Effect::Ping { query, reset_seconds: PING_SECONDS },
                    }
                } else {
                    PollStep::Next {
                        round: PollRound::LmsEvents { progress },
                        effect: Effect::Nothing,
                    }
                }
            },
            PollInput::LmsEvents(polled) => {
                let mut progress = match round {
                    PollRound::LmsEvents { progress } => progress,
                    _ => vstd::pervasive::unreached(),
                };
                match polled {
                    Polled::Closed => {
                        return PollStep::Finished;
                    },
                    Polled::Item(event) => {
                        self.handle_lms_event(event);
                        progress = true;
                    },
                    Polled::NotReady | Polled::Failed => {},
                }
                if progress {
                    PollStep::Next { round: PollRound::Commands, effect: Effect::Nothing }
                } else {
                    PollStep::NotReady
                }
            },
        }
    }
}

/// Numbers for play requests, one after the other.
pub struct SeqGenerator {
    value: u64,
}

impl SeqGenerator {
    /// The number that comes next.
    pub closed spec fn next(self) -> u64 {
        self.value
    }

    /// Starts with `value`.
    pub fn new(value: u64) -> (generator: SeqGenerator)
        ensures
            generator.next() == value,
    {
        SeqGenerator { value }
    }
}

/// What Spotify Connect holds of the player.
pub struct Player {
    pub commands: Option<UnboundedSender<PlayerCommand>>,
    pub play_request_id_generator: SeqGenerator,
}

/// The ends of the channels that are polled for [`PlayerInternal::poll`].
pub struct Mailboxes {
    pub cmd_rx: UnboundedReceiver<PlayerCommand>,
    pub lms_cmd_tx: UnboundedSender<LMSEvent>,
    pub lms_cmd_rx: UnboundedReceiver<LMSEvent>,
}

impl Player {
    /// A player on `lms`, and what is to be run for it: the player behind it,
    /// with its channels. Its pinger is first set to [`PING_SECONDS`].
    pub fn new(lms: LMS) -> (parts: (Player, PlayerInternal, Mailboxes))
        ensures
            parts.0.commands matches Some(sender) && crate::channel::carries_commands(
                sender,
                parts.2.cmd_rx,
            ),
            crate::channel::carries_reports(parts.2.lms_cmd_tx, parts.2.lms_cmd_rx),
            parts.0.play_request_id_generator.next() == 0,
            parts.1@ == (PlayerView {
                event_senders: Seq::empty(),
                lms: lms@,
                track_state: TrackView::initial(),
            }),
    {
        let (cmd_tx, cmd_rx) = command_channel();
        let (lms_cmd_tx, lms_cmd_rx) = report_channel();
        let internal = PlayerInternal {
            event_senders: Vec::new(),
            lms,
            track_state: TrackState::new(),
        };
        (
            Player { commands: Some(cmd_tx), play_request_id_generator: SeqGenerator::new(0) },
            internal,
            Mailboxes { cmd_rx, lms_cmd_tx, lms_cmd_rx },
        )
    }
}

/// What holds of a track state at the start holds at all times.
pub proof fn law_track_state_stays_well_formed(
    state: TrackView,
    track_id: SpotifyId,
    play_request_id: u64,
    event: crate::lms::LMSEventView,
)
    ensures
        TrackView::initial().wf(),
        state.wf() ==> state.loading(track_id, play_request_id).wf(),
        state.wf() ==> state.after_event(event).wf(),
{
}

/// Whatever the player is given, its track state stays well formed and its server
/// stays the same.
pub proof fn law_player_stays_well_formed(before: PlayerView, input: PollInput, after: PlayerView)
    requires
        before.track_state.wf(),
        input_handled(before, input, after),
    ensures
        after.track_state.wf(),
        after.lms == before.lms,
{
}

/// A track that was asked for becomes the played one with the first report of
/// another track than before. From then on it is told of under its own request,
/// and nothing is on its way any more.
pub proof fn law_loaded_track_is_played(
    state: TrackView,
    track_id: SpotifyId,
    play_request_id: u64,
    position_ms: u32,
    play_id: Seq<char>,
)
    requires
        state.current_track_id != Some(track_id),
        play_id != state.current_play_id,
    ensures
        ({
            let event = crate::lms::LMSEventView::Playing { position_ms, play_id };
            let after = state.loading(track_id, play_request_id).after_event(event);
            &&& after.current_track_id == Some(track_id)
            &&& after.current_play_request_id == play_request_id
            &&& after.current_play_id == play_id
            &&& after.load_track_id is None
            &&& after.event_for(event) == Some(
                PlaybackEvent::Playing { play_request_id, track_id, position_ms, duration_ms: 0 },
            )
        }),
{
}

/// The first track that is asked for becomes the played one with the first report
/// that has a play identifier.
pub proof fn law_first_track_is_played(state: TrackView, play_id: Seq<char>)
    requires
        state.wf(),
        state.current_track_id is None,
        state.load_track_id is Some,
        crate::lms::is_play_id(play_id),
    ensures
        state.reported(play_id).current_track_id == state.load_track_id,
        state.reported(play_id).current_play_request_id == state.load_play_request_id,
        state.reported(play_id).current_play_id == play_id,
{
}

/// The track that is played already is not loaded again, and nobody is told of it.
pub proof fn law_played_track_is_not_loaded_again(
    before: PlayerView,
    after: PlayerView,
    track_id: SpotifyId,
    play_request_id: u64,
    play: bool,
    position_ms: u32,
    request: Option<crate::lms::PostRequestView>,
)
    requires
        before.track_state.current_track_id == Some(track_id),
        command_handled(
            before,
            (PlayerCommand::Load { track_id, play_request_id, play, position_ms }),
            after,
            request,
        ),
    ensures
        after == before,
{
}

/// Of several tracks that were asked for, the last one counts.
pub proof fn law_last_load_counts(
    state: TrackView,
    first: SpotifyId,
    first_request: u64,
    second: SpotifyId,
    second_request: u64,
)
    requires
        state.current_track_id != Some(second),
    ensures
        state.loading(first, first_request).loading(second, second_request) == state.loading(
            second,
            second_request,
        ),
{
}

/// A report changes the state at most once, however often it comes.
pub proof fn law_repeated_report_changes_nothing(
    state: TrackView,
    event: crate::lms::LMSEventView,
)
    ensures
        state.after_event(event).after_event(event) == state.after_event(event),
{
}

/// Whether a track is played or paused makes no difference to which track it is.
pub proof fn law_playing_and_paused_agree(
    state: TrackView,
    position_ms: u32,
    other_position_ms: u32,
    play_id: Seq<char>,
)
    ensures
        state.after_event(crate::lms::LMSEventView::Playing { position_ms, play_id })
            == state.after_event(
            crate::lms::LMSEventView::Paused { position_ms: other_position_ms, play_id },
        ),
{
}

/// Progress is told of the track that is played and of no other, under the request
/// that it was asked for with and with the position that was reported.
pub proof fn law_progress_is_of_the_played_track(
    state: TrackView,
    event: crate::lms::LMSEventView,
)
    ensures
        state.event_for(event) matches Some(told) ==> {
            &&& !(told is Loading)
            &&& told matches PlaybackEvent::Playing {
                play_request_id,
                track_id,
                position_ms,
                duration_ms,
            } ==> {
                &&& event == crate::lms::LMSEventView::Playing {
                    position_ms,
                    play_id: state.current_play_id,
                }
                &&& Some(track_id) == state.current_track_id
                &&& play_request_id == state.current_play_request_id
                &&& duration_ms == 0
            }
            &&& told matches PlaybackEvent::Paused {
                play_request_id,
                track_id,
                position_ms,
                duration_ms,
            } ==> {
                &&& event == crate::lms::LMSEventView::Paused {
                    position_ms,
                    play_id: state.current_play_id,
                }
                &&& Some(track_id) == state.current_track_id
                &&& play_request_id == state.current_play_request_id
                &&& duration_ms == 0
            }
        },
{
}

/// While nothing is on its way, reports of other tracks are ignored: what someone
/// else plays on the server is not told of.
pub proof fn law_foreign_tracks_are_ignored(
    before: PlayerView,
    event: crate::lms::LMSEventView,
    after: PlayerView,
)
    requires
        before.track_state.load_track_id is None,
        match event {
            crate::lms::LMSEventView::Stopped => true,
            crate::lms::LMSEventView::Playing { play_id, .. } => play_id
                != before.track_state.current_play_id,
            crate::lms::LMSEventView::Paused { play_id, .. } => play_id
                != before.track_state.current_play_id,
        },
        event_handled(before, event, after),
    ensures
        after == before,
{
}

/// A stop of the server is ignored.
pub proof fn law_stop_is_ignored(before: PlayerView, after: PlayerView)
    requires
        event_handled(before, crate::lms::LMSEventView::Stopped, after),
    ensures
        after == before,
{
}

/// Different tracks are started by different commands.
pub proof fn law_start_commands_differ(a: SpotifyId, b: SpotifyId)
    requires
        start_command(a) == start_command(b),
    ensures
        a.id == b.id,
{
    let head = "[\"spottyconnect\",\"start\",\""@;
    let tail = "\"]"@;
    let x = crate::spotify_id::base62(a.id as int, crate::spotify_id::BASE62_LEN as nat);
    let y = crate::spotify_id::base62(b.id as int, crate::spotify_id::BASE62_LEN as nat);
    crate::spotify_id::law_base62_len(a.id as int, crate::spotify_id::BASE62_LEN as nat);
    crate::spotify_id::law_base62_len(b.id as int, crate::spotify_id::BASE62_LEN as nat);
    let start = head.len() as int;
    let end = head.len() + crate::spotify_id::BASE62_LEN;
    assert(x =~= (head + x + tail).subrange(start, end));
    assert(y =~= (head + y + tail).subrange(start, end));
    crate::spotify_id::law_base62_injective(a.id, b.id);
}

/// Whether the channel refused `event`.
pub open spec fn refused(sender: UnboundedSender<PlayerEvent>, event: PlaybackEvent) -> bool {
    exists|end: UnboundedSender<PlayerEvent>| #[trigger] handed_over(sender, end, event, false)
}

/// Every channel was handed the event. Those that took it are still there, in the order
/// that they had, and have got that event and nothing else; all others refused it.
pub proof fn law_kept_channels_have_the_event(
    before: Seq<UnboundedSender<PlayerEvent>>,
    after: Seq<UnboundedSender<PlayerEvent>>,
    event: PlaybackEvent,
) -> (places: Seq<int>)
    requires
        sent(before, after, event),
    ensures
        places.len() == after.len() <= before.len(),
        forall|i: int, j: int|
            0 <= i < j < places.len() ==> #[trigger] places[i] < #[trigger] places[j],
        forall|i: int|
            0 <= i < places.len() ==> 0 <= #[trigger] places[i] < before.len() && handed_over(
                before[places[i]],
                after[i],
                event,
                true,
            ),
        forall|j: int|
            0 <= j < before.len() && !places.contains(j) ==> refused(#[trigger] before[j], event),
{
    let (tried, taken) = choose|tried: Seq<UnboundedSender<PlayerEvent>>, taken: Seq<bool>|
        #[trigger] handed_to_all(before, tried, taken, event) && after == kept(tried, taken);
    let places = lemma_places(tried, taken);
    assert forall|i: int| 0 <= i < places.len() implies 0 <= #[trigger] places[i] < before.len()
        && handed_over(before[places[i]], after[i], event, true) by {
        assert(after[i] == tried[places[i]]);
    }
    assert forall|j: int| 0 <= j < before.len() && !places.contains(j) implies refused(
        #[trigger] before[j],
        event,
    ) by {
        assert(!taken[j]);
        assert(handed_over(before[j], tried[j], event, false));
    }
    places
}

proof fn lemma_places(tried: Seq<UnboundedSender<PlayerEvent>>, taken: Seq<bool>) -> (places: Seq<
    int,
>)
    requires
        taken.len() == tried.len(),
    ensures
        places.len() == kept(tried, taken).len() <= tried.len(),
        forall|i: int, j: int|
            0 <= i < j < places.len() ==> #[trigger] places[i] < #[trigger] places[j],
        forall|i: int|
            0 <= i < places.len() ==> {
                &&& 0 <= #[trigger] places[i] < tried.len()
                &&& taken[places[i]]
                &&& kept(tried, taken)[i] == tried[places[i]]
            },
        forall|j: int| 0 <= j < tried.len() && #[trigger] taken[j] ==> places.contains(j),
    decreases tried.len(),
{
    if tried.len() == 0 {
        Seq::empty()
    } else {
        let last = tried.len() - 1;
        let rest = lemma_places(tried.drop_last(), taken.drop_last());
        let places = if taken[last] {
            rest.push(last)
        } else {
            rest
        };
        assert forall|j: int| 0 <= j < tried.len() && #[trigger] taken[j] implies places.contains(
            j,
        ) by {
            if j < last {
                assert(taken.drop_last()[j]);
                let i = choose|i: int| 0 <= i < rest.len() && rest[i] == j;
                assert(places[i] == j);
            } else {
                assert(places[places.len() - 1] == j);
            }
        }
        places
    }
}

/// A channel is lost only if it refused the event. If none did, every channel is kept
/// and has got the event.
pub proof fn law_everyone_is_told(
    before: Seq<UnboundedSender<PlayerEvent>>,
    after: Seq<UnboundedSender<PlayerEvent>>,
    event: PlaybackEvent,
)
    requires
        sent(before, after, event),
    ensures
        after.len() <= before.len(),
        after.len() < before.len() ==> exists|i: int|
            0 <= i < before.len() && refused(#[trigger] before[i], event),
        after.len() == before.len() ==> forall|i: int|
            0 <= i < before.len() ==> handed_over(before[i], #[trigger] after[i], event, true),
{
    let (tried, taken) = choose|tried: Seq<UnboundedSender<PlayerEvent>>, taken: Seq<bool>|
        #[trigger] handed_to_all(before, tried, taken, event) && after == kept(tried, taken);
    lemma_all_or_some(tried, taken);
    if after.len() < before.len() {
        let i = choose|i: int| 0 <= i < taken.len() && !#[trigger] taken[i];
        assert(handed_over(before[i], tried[i], event, false));
        assert(refused(before[i], event));
    }
}

proof fn lemma_all_or_some(tried: Seq<UnboundedSender<PlayerEvent>>, taken: Seq<bool>)
    requires
        taken.len() == tried.len(),
    ensures
        kept(tried, taken).len() <= tried.len(),
        kept(tried, taken).len() < tried.len() ==> exists|i: int|
            0 <= i < taken.len() && !#[trigger] taken[i],
        kept(tried, taken).len() == tried.len() ==> {
            &&& kept(tried, taken) == tried
            &&& forall|i: int| 0 <= i < taken.len() ==> #[trigger] taken[i]
        },
    decreases tried.len(),
{
    if tried.len() > 0 {
        lemma_all_or_some(tried.drop_last(), taken.drop_last());
        let rest = kept(tried.drop_last(), taken.drop_last());
        let last = tried.len() - 1;
        if rest.len() < last {
            let i = choose|i: int| 0 <= i < last && !#[trigger] taken.drop_last()[i];
            assert(!taken[i]);
        } else {
            assert forall|i: int| 0 <= i < last implies #[trigger] taken[i] by {
                assert(taken.drop_last()[i]);
            }
            assert(tried =~= tried.drop_last().push(tried.last()));
        }
    }
}

/// As long as no listener is lost, each of them hears of a track that is to be loaded
/// and then of its first report, in this order and of nothing else.
pub proof fn law_listeners_hear_of_a_loaded_track(
    before: PlayerView,
    middle: PlayerView,
    after: PlayerView,
    track_id: SpotifyId,
    play_request_id: u64,
    play: bool,
    load_position_ms: u32,
    report: LMSEvent,
    position_ms: u32,
    play_id: Seq<char>,
    i: int,
)
    requires
        before.track_state.current_track_id != Some(track_id),
        before.track_state.current_play_id != play_id,
        report@ == (crate::lms::LMSEventView::Playing { position_ms, play_id }),
        input_handled(
            before,
            PollInput::Commands(
                Polled::Item(
                    PlayerCommand::Load {
                        track_id,
                        play_request_id,
                        play,
                        position_ms: load_position_ms,
                    },
                ),
            ),
            middle,
        ),
        input_handled(middle, PollInput::LmsEvents(Polled::Item(report)), after),
        after.event_senders.len() == before.event_senders.len(),
        0 <= i < before.event_senders.len(),
    ensures
        crate::channel::offered(after.event_senders[i]) == crate::channel::offered(
            before.event_senders[i],
        ).push(
            (
                PlaybackEvent::Loading { play_request_id, track_id, position_ms: load_position_ms },
                true,
            ),
        ).push(
            (
                PlaybackEvent::Playing { play_request_id, track_id, position_ms, duration_ms: 0 },
                true,
            ),
        ),
        forall|receiver: UnboundedReceiver<PlayerEvent>| #[trigger]
            crate::channel::carries_events(after.event_senders[i], receiver)
                == crate::channel::carries_events(before.event_senders[i], receiver),
{
    let loading = PlaybackEvent::Loading {
        play_request_id,
        track_id,
        position_ms: load_position_ms,
    };
    let playing = PlaybackEvent::Playing { play_request_id, track_id, position_ms, duration_ms: 0 };
    assert(after.track_state.event_for(report@) == Some(playing));
    law_everyone_is_told(before.event_senders, middle.event_senders, loading);
    law_everyone_is_told(middle.event_senders, after.event_senders, playing);
    assert(handed_over(before.event_senders[i], middle.event_senders[i], loading, true));
    assert(handed_over(middle.event_senders[i], after.event_senders[i], playing, true));
}

/// The server is told the same of a pause and of a stop, and neither has any other
/// effect.
pub proof fn law_pause_and_stop_agree(
    before: PlayerView,
    paused: PlayerView,
    pause_request: Option<crate::lms::PostRequestView>,
    stopped: PlayerView,
    stop_request: Option<crate::lms::PostRequestView>,
)
    requires
        command_handled(before, PlayerCommand::Pause, paused, pause_request),
        command_handled(before, PlayerCommand::Stop, stopped, stop_request),
    ensures
        pause_request == before.lms.command_request("[\"spottyconnect\",\"stop\"]"@),
        stop_request == pause_request,
        paused == before,
        stopped == before,
{
}

/// The server is told the same of every seek, wherever it goes, and a seek has no other
/// effect.
pub proof fn law_seeks_agree(
    before: PlayerView,
    position_ms: u32,
    after: PlayerView,
    request: Option<crate::lms::PostRequestView>,
    other_position_ms: u32,
    other_after: PlayerView,
    other_request: Option<crate::lms::PostRequestView>,
)
    requires
        command_handled(before, PlayerCommand::Seek(position_ms), after, request),
        command_handled(
            before,
            PlayerCommand::Seek(other_position_ms),
            other_after,
            other_request,
        ),
    ensures
        request == before.lms.command_request("[\"spottyconnect\",\"change\"]"@),
        other_request == request,
        after == before,
        other_after == before,
{
}

/// What Spotify Connect asks changes the listeners in two ways only: one is added, the
/// last one, or all are told of a track that is to be loaded.
pub proof fn law_how_commands_change_the_listeners(
    before: PlayerView,
    cmd: PlayerCommand,
    after: PlayerView,
    request: Option<crate::lms::PostRequestView>,
)
    requires
        command_handled(before, cmd, after, request),
    ensures
        cmd matches PlayerCommand::AddEventSender(sender) ==> after.event_senders
            == before.event_senders.push(sender),
        !(cmd is AddEventSender) && !(cmd is Load) ==> after == before,
        !(cmd is Load) ==> after.track_state == before.track_state,
        cmd matches PlayerCommand::Load { track_id, play_request_id, position_ms, .. } ==> {
            ||| after.event_senders == before.event_senders
            ||| sent(
                before.event_senders,
                after.event_senders,
                PlaybackEvent::Loading { play_request_id, track_id, position_ms },
            )
        },
{
}

/// The player ends when one of its channels has closed, and at no other time.
pub proof fn law_player_ends_with_its_channels(
    before: PlayerView,
    round: PollRound,
    input: PollInput,
)
    requires
        answers(round, input),
    ensures
        next_step(before, round, input) is Finished <==> {
            ||| input matches PollInput::Commands(polled) && polled is Closed
            ||| input matches PollInput::LmsEvents(polled) && polled is Closed
        },
{
}

/// In every round the commands, the pinger and the server's events are polled in
/// this order, as long as no channel has closed. The player waits just if all three
/// had nothing, and starts over otherwise.
pub proof fn law_rounds(
    first: PlayerView,
    commands: Polled<PlayerCommand>,
    second: PlayerView,
    elapsed: bool,
    third: PlayerView,
    events: Polled<LMSEvent>,
)
    requires
        !(commands is Closed),
        !(events is Closed),
    ensures
        next_step(first, PollRound::Commands, PollInput::Commands(commands)) matches PollStepView::Next {
            round: pinger,
            ..
        } && next_step(second, pinger, PollInput::Pinger(elapsed)) matches PollStepView::Next {
            round: lms_events,
            ..
        } && {
            let last = next_step(third, lms_events, PollInput::LmsEvents(events));
            if commands is Item || elapsed || events is Item {
                last == (PollStepView::Next {
                    round: PollRound::Commands,
                    effect: EffectView::Nothing,
                })
            } else {
                last is NotReady
            }
        },
{
}

/// The server is asked for its state just when the pinger's time is up, and the
/// pinger is then set again.
pub proof fn law_server_is_asked_regularly(before: PlayerView, round: PollRound, input: PollInput)
    requires
        answers(round, input),
    ensures
        input == PollInput::Pinger(true) <==> (next_step(before, round, input) matches PollStepView::Next {
            effect,
            ..
        } && effect == (EffectView::Ping {
            query: before.lms.status_request(),
            reset_seconds: PING_SECONDS,
        })),
{
}

/// Every listener is handed the event itself, once. Whoever takes it stays, in the same
/// order, with that event behind all that came before; whoever is gone has refused it.
pub proof fn law_every_listener_is_handed_the_event(
    before: Seq<UnboundedSender<PlayerEvent>>,
    after: Seq<UnboundedSender<PlayerEvent>>,
    event: PlaybackEvent,
) -> (places: Seq<int>)
    requires
        sent(before, after, event),
    ensures
        places.len() == after.len(),
        forall|i: int, j: int|
            0 <= i < j < places.len() ==> #[trigger] places[i] < #[trigger] places[j],
        forall|i: int|
            0 <= i < places.len() ==> {
                &&& 0 <= #[trigger] places[i] < before.len()
                &&& crate::channel::offered(after[i]) == crate::channel::offered(
                    before[places[i]],
                ).push((event, true))
            },
        forall|i: int, receiver: UnboundedReceiver<PlayerEvent>|
            #![trigger places[i], crate::channel::carries_events(after[i], receiver)]
            0 <= i < places.len() ==> crate::channel::carries_events(after[i], receiver)
                == crate::channel::carries_events(before[places[i]], receiver),
        forall|j: int|
            0 <= j < before.len() && !(#[trigger] places.contains(j)) ==> exists|
                end: UnboundedSender<PlayerEvent>,
            |
                #[trigger] crate::channel::offered(end) == crate::channel::offered(
                    before[j],
                ).push((event, false)),
{
    let places = law_kept_channels_have_the_event(before, after, event);
    assert forall|j: int| 0 <= j < before.len() && !(#[trigger] places.contains(j)) implies exists|
        end: UnboundedSender<PlayerEvent>,
    |
        #[trigger] crate::channel::offered(end) == crate::channel::offered(
            before[j],
        ).push((event, false)) by {
        assert(refused(before[j], event));
        let end = choose|end: UnboundedSender<PlayerEvent>| #[trigger]
            handed_over(before[j], end, event, false);
        assert(crate::channel::offered(end) == crate::channel::offered(before[j]).push(
            (event, false),
        ));
    }
    places
}

/// A player starts without listeners, without a track and without a request.
pub proof fn law_a_new_player_has_nothing(internal: PlayerInternal, lms: LMS)
    requires
        internal@ == (PlayerView {
            event_senders: Seq::empty(),
            lms: lms@,
            track_state: TrackView::initial(),
        }),
    ensures
        internal.event_senders@.len() == 0,
        internal.lms@ == lms@,
        internal.track_state.load_track_id is None,
        internal.track_state.load_play_request_id == 0,
        internal.track_state.current_track_id is None,
        internal.track_state.current_play_request_id == 0,
        internal.track_state.current_play_id@.len() == 0,
{
}

/// The player reports all progress of the track that is played: whenever the server says
/// that this track plays or pauses, every listener is told so, with the track's request,
/// the track and the position, whatever that is. Which track is played, and which one is
/// on its way, stays as it is.
pub proof fn law_all_progress_is_told(
    before: PlayerInternal,
    event: LMSEvent,
    after: PlayerInternal,
    track_id: SpotifyId,
    position_ms: u32,
    play_id: String,
)
    requires
        event_handled(before@, event@, after@),
        event == (LMSEvent::Playing { position_ms, play_id }) || event == (LMSEvent::Paused {
            position_ms,
            play_id,
        }),
        before.track_state.current_track_id == Some(track_id),
        before.track_state.current_play_id@ == play_id@,
    ensures
        event is Playing ==> sent(
            before.event_senders@,
            after.event_senders@,
            PlaybackEvent::Playing {
                play_request_id: before.track_state.current_play_request_id,
                track_id,
                position_ms,
                duration_ms: 0,
            },
        ),
        event is Paused ==> sent(
            before.event_senders@,
            after.event_senders@,
            PlaybackEvent::Paused {
                play_request_id: before.track_state.current_play_request_id,
                track_id,
                position_ms,
                duration_ms: 0,
            },
        ),
        after.track_state.load_track_id == before.track_state.load_track_id,
        after.track_state.load_play_request_id == before.track_state.load_play_request_id,
        after.track_state.current_track_id == Some(track_id),
        after.track_state.current_play_request_id == before.track_state.current_play_request_id,
        after.track_state.current_play_id@ == play_id@,
        after.lms@ == before.lms@,
{
}

/// The first report of another track than the one that is played is that of the track on
/// its way, whether it plays or pauses: from then on this is the played track, under its
/// own request, nothing is on its way, and every listener is told of the report.
pub proof fn law_first_report_is_of_the_track_on_its_way(
    before: PlayerInternal,
    event: LMSEvent,
    after: PlayerInternal,
    track_id: SpotifyId,
    position_ms: u32,
    play_id: String,
)
    requires
        event_handled(before@, event@, after@),
        event == (LMSEvent::Playing { position_ms, play_id }) || event == (LMSEvent::Paused {
            position_ms,
            play_id,
        }),
        before.track_state.load_track_id == Some(track_id),
        before.track_state.current_play_id@ != play_id@,
    ensures
        event is Playing ==> sent(
            before.event_senders@,
            after.event_senders@,
            PlaybackEvent::Playing {
                play_request_id: before.track_state.load_play_request_id,
                track_id,
                position_ms,
                duration_ms: 0,
            },
        ),
        event is Paused ==> sent(
            before.event_senders@,
            after.event_senders@,
            PlaybackEvent::Paused {
                play_request_id: before.track_state.load_play_request_id,
                track_id,
                position_ms,
                duration_ms: 0,
            },
        ),
        after.track_state.load_track_id is None,
        after.track_state.load_play_request_id == 0,
        after.track_state.current_track_id == Some(track_id),
        after.track_state.current_play_request_id == before.track_state.load_play_request_id,
        after.track_state.current_play_id@ == play_id@,
        after.lms@ == before.lms@,
{
}

/// All other reports change nothing, and nobody is told of them: a stop, a track that is
/// neither played nor on its way, and one that goes by the name of none while none is
/// played.
pub proof fn law_other_reports_change_nothing(
    before: PlayerInternal,
    event: LMSEvent,
    after: PlayerInternal,
)
    requires
        event_handled(before@, event@, after@),
        match event {
            LMSEvent::Stopped => true,
            LMSEvent::Playing { play_id, .. } | LMSEvent::Paused { play_id, .. } => if play_id@
                == before.track_state.current_play_id@ {
                before.track_state.current_track_id is None
            } else {
                before.track_state.load_track_id is None
            },
        },
    ensures
        after.event_senders@ == before.event_senders@,
        after.track_state.load_track_id == before.track_state.load_track_id,
        after.track_state.load_play_request_id == before.track_state.load_play_request_id,
        after.track_state.current_track_id == before.track_state.current_track_id,
        after.track_state.current_play_request_id == before.track_state.current_play_request_id,
        after.track_state.current_play_id@ == before.track_state.current_play_id@,
        after.lms@ == before.lms@,
{
}

/// A request to load another track than the played one is kept, in place of one that was
/// still on its way, and every listener is told that the track is loading; what is played
/// stays as it is. A request for the played track changes nothing.
pub proof fn law_loading(
    before: PlayerInternal,
    after: PlayerInternal,
    track_id: SpotifyId,
    play_request_id: u64,
    play: bool,
    position_ms: u32,
    request: Option<PostRequest>,
)
    requires
        command_handled(
            before@,
            (PlayerCommand::Load { track_id, play_request_id, play, position_ms }),
            after@,
            crate::lms::request_of(request),
        ),
    ensures
        before.track_state.current_track_id != Some(track_id) ==> {
            &&& after.track_state.load_track_id == Some(track_id)
            &&& after.track_state.load_play_request_id == play_request_id
            &&& sent(
                before.event_senders@,
                after.event_senders@,
                PlaybackEvent::Loading { play_request_id, track_id, position_ms },
            )
        },
        before.track_state.current_track_id == Some(track_id) ==> {
            &&& after.track_state.load_track_id == before.track_state.load_track_id
            &&& after.track_state.load_play_request_id == before.track_state.load_play_request_id
            &&& after.event_senders@ == before.event_senders@
        },
        after.track_state.current_track_id == before.track_state.current_track_id,
        after.track_state.current_play_request_id == before.track_state.current_play_request_id,
        after.track_state.current_play_id@ == before.track_state.current_play_id@,
        after.lms@ == before.lms@,
{
}

/// No other command touches the tracks, and only one touches the listeners: a new listener
/// comes behind all others.
pub proof fn law_other_commands_touch_no_track(
    before: PlayerInternal,
    cmd: PlayerCommand,
    after: PlayerInternal,
    request: Option<PostRequest>,
)
    requires
        !(cmd is Load),
        command_handled(before@, cmd, after@, crate::lms::request_of(request)),
    ensures
        cmd matches PlayerCommand::AddEventSender(sender) ==> after.event_senders@
            == before.event_senders@.push(sender),
        !(cmd is AddEventSender) ==> after.event_senders@ == before.event_senders@,
        after.track_state.load_track_id == before.track_state.load_track_id,
        after.track_state.load_play_request_id == before.track_state.load_play_request_id,
        after.track_state.current_track_id == before.track_state.current_track_id,
        after.track_state.current_play_request_id == before.track_state.current_play_request_id,
        after.track_state.current_play_id@ == before.track_state.current_play_id@,
        after.lms@ == before.lms@,
{
}

/// What the server is told of each command. A track that is to be played is started by
/// its identifier in base 62; play starts without one; pause and stop both stop; a seek
/// is a change, wherever it goes. All else is not for the server.
pub proof fn law_what_the_server_is_told(
    before: PlayerInternal,
    cmd: PlayerCommand,
    after: PlayerInternal,
    request: Option<PostRequest>,
)
    requires
        command_handled(before@, cmd, after@, crate::lms::request_of(request)),
    ensures
        cmd matches PlayerCommand::Load { track_id, play, .. } ==> crate::lms::request_of(request)
            == (if play {
            before.lms@.command_request(
                "[\"spottyconnect\",\"start\",\""@ + crate::spotify_id::base62(
                    track_id.id as int,
                    22,
                ) + "\"]"@,
            )
        } else {
            None
        }),
        cmd is Play ==> crate::lms::request_of(request) == before.lms@.command_request(
            "[\"spottyconnect\",\"start\"]"@,
        ),
        cmd is Pause || cmd is Stop ==> crate::lms::request_of(request)
            == before.lms@.command_request("[\"spottyconnect\",\"stop\"]"@),
        cmd is Seek ==> crate::lms::request_of(request) == before.lms@.command_request(
            "[\"spottyconnect\",\"change\"]"@,
        ),
        cmd is Preload || cmd is AddEventSender || cmd is SetSinkEventCallback
            || cmd is EmitVolumeSetEvent ==> request is None,
{
}

/// A command that is polled is handled, and what handling it gives for the server is
/// posted: that request and no other, or nothing if there is none. The round goes on and
/// will be followed by another one.
pub proof fn law_polled_commands_are_posted(
    before: PlayerInternal,
    cmd: PlayerCommand,
    handled: PlayerInternal,
    request: Option<PostRequest>,
    step: PollStep,
    after: PlayerInternal,
)
    requires
        command_handled(before@, cmd, handled@, crate::lms::request_of(request)),
        step@ == next_step(before@, PollRound::Commands, PollInput::Commands(Polled::Item(cmd))),
        input_handled(before@, PollInput::Commands(Polled::Item(cmd)), after@),
    ensures
        command_handled(before@, cmd, after@, crate::lms::request_of(request)),
        step matches PollStep::Next { round, effect } && {
            &&& round == (PollRound::Pinger { progress: true })
            &&& request is None ==> effect is Nothing
            &&& request matches Some(request) ==> (effect matches Effect::Post(posted) && posted@
                == request@)
        },
{
}

/// Whatever is asked of a configured server is posted to it, in a body that names the
/// player and what is asked: to start, with the track where one is loaded, to stop or to
/// change. Of a server that is not configured, and of commands that are none for it,
/// nothing is posted.
pub proof fn law_polled_commands_reach_the_server(
    before: PlayerInternal,
    cmd: PlayerCommand,
    step: PollStep,
)
    requires
        step@ == next_step(before@, PollRound::Commands, PollInput::Commands(Polled::Item(cmd))),
    ensures
        ({
            let text = match cmd {
                PlayerCommand::Load { track_id, play, .. } => if play {
                    Some(
                        "[\"spottyconnect\",\"start\",\""@ + crate::spotify_id::base62(
                            track_id.id as int,
                            22,
                        ) + "\"]"@,
                    )
                } else {
                    None
                },
                PlayerCommand::Play => Some("[\"spottyconnect\",\"start\"]"@),
                PlayerCommand::Pause | PlayerCommand::Stop => Some(
                    "[\"spottyconnect\",\"stop\"]"@,
                ),
                PlayerCommand::Seek(_) => Some("[\"spottyconnect\",\"change\"]"@),
                _ => None,
            };
            let lms = before.lms@;
            &&& step matches PollStep::Next { round, effect }
            &&& round == (PollRound::Pinger { progress: true })
            &&& if text is Some && lms.base_url is Some && lms.player_mac is Some {
                &&& effect matches Effect::Post(request)
                &&& request.body@ == "{\"id\": 1,\"method\":\"slim.request\",\"params\":[\""@
                    + lms.player_mac->0 + "\","@ + text->0 + "]}"@
                &&& crate::http::uri_text(request.uri) == crate::http::with_path(lms.base_url->0)
                &&& request.content_length == vstd::utf8::encode_utf8(request.body@).len()
                &&& request.content_type@ == "application/json"@
                &&& request.scanner@ == "1"@
                &&& request.authorization is Some <==> lms.auth is Some
                &&& request.authorization matches Some(authorization) ==> authorization@
                    == "Basic "@ + lms.auth->0
            } else {
                effect is Nothing
            }
        }),
{
}

/// Reports that are polled are followed, and the round will be followed by another one.
pub proof fn law_polled_reports_are_followed(
    before: PlayerInternal,
    event: LMSEvent,
    progress: bool,
    step: PollStep,
    after: PlayerInternal,
)
    requires
        step@ == next_step(
            before@,
            PollRound::LmsEvents { progress },
            PollInput::LmsEvents(Polled::Item(event)),
        ),
        input_handled(before@, PollInput::LmsEvents(Polled::Item(event)), after@),
    ensures
        event_handled(before@, event@, after@),
        step == (PollStep::Next { round: PollRound::Commands, effect: Effect::Nothing }),
{
}

/// What brings neither a command nor a report leaves the player as it is. A closed channel
/// ends it. The pinger, when its second is up, leads to a query for the state and is set
/// to one second again; the round goes on, and at its end the player starts over if
/// anything was found in it and waits otherwise.
pub proof fn law_other_inputs_of_a_round(
    before: PlayerInternal,
    round: PollRound,
    input: PollInput,
    step: PollStep,
    after: PlayerInternal,
)
    requires
        answers(round, input),
        !(input matches PollInput::Commands(polled) && polled is Item),
        !(input matches PollInput::LmsEvents(polled) && polled is Item),
        step@ == next_step(before@, round, input),
        input_handled(before@, input, after@),
    ensures
        after.event_senders@ == before.event_senders@,
        after.lms@ == before.lms@,
        after.track_state.load_track_id == before.track_state.load_track_id,
        after.track_state.load_play_request_id == before.track_state.load_play_request_id,
        after.track_state.current_track_id == before.track_state.current_track_id,
        after.track_state.current_play_request_id == before.track_state.current_play_request_id,
        after.track_state.current_play_id@ == before.track_state.current_play_id@,
        input matches PollInput::Commands(polled) ==> step == (if polled is Closed {
            PollStep::Finished
        } else {
            PollStep::Next { round: PollRound::Pinger { progress: false }, effect: Effect::Nothing }
        }),
        round matches PollRound::Pinger { progress } ==> {
            &&& input == PollInput::Pinger(false) ==> step == (PollStep::Next {
                round: PollRound::LmsEvents { progress },
                effect: Effect::Nothing,
            })
            &&& input == PollInput::Pinger(true) ==> (step matches PollStep::Next {
                round: next,
                effect,
            } && {
                &&& next == (PollRound::LmsEvents { progress: true })
                &&& effect matches Effect::Ping { query, reset_seconds }
                &&& reset_seconds == 1
                &&& crate::lms::request_of(query) == before.lms@.status_request()
            })
        },
        round matches PollRound::LmsEvents { progress } ==> (
        input matches PollInput::LmsEvents(polled) ==> step == (if polled is Closed {
            PollStep::Finished
        } else if progress {
            PollStep::Next { round: PollRound::Commands, effect: Effect::Nothing }
        } else {
            PollStep::NotReady
        })),
{
}

/// A round takes whatever comes from the source that is polled in it.
pub proof fn law_what_rounds_take(round: PollRound, input: PollInput)
    ensures
        answers(round, input) <==> match input {
            PollInput::Commands(_) => round is Commands,
            PollInput::Pinger(_) => round is Pinger,
            PollInput::LmsEvents(_) => round is LmsEvents,
        },
{
}

/// Only an address that is none of HTTP stands in the way of the player, and only where
/// something is to be posted: a command for a configured server, or a query for the state.
pub proof fn law_only_bad_addresses_stand_in_the_way(before: PlayerInternal, input: PollInput)
    ensures
        !input_postable(before@, input) <==> {
            &&& before.lms@.base_url is Some
            &&& !crate::http::is_http_address(before.lms@.base_url->0)
            &&& {
                ||| input == PollInput::Pinger(true)
                ||| {
                    &&& before.lms@.player_mac is Some
                    &&& input matches PollInput::Commands(Polled::Item(cmd))
                    &&& {
                        ||| cmd is Play || cmd is Pause || cmd is Stop || cmd is Seek
                        ||| cmd matches PlayerCommand::Load { play, .. } && play
                    }
                }
            }
        },
        forall|cmd: PlayerCommand| #[trigger]
            before@.postable(command_text(cmd)) == input_postable(
                before@,
                PollInput::Commands(Polled::Item(cmd)),
            ),
{
}

} // verus!
