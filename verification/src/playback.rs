//! The playback actor's state and its answer to each transport command.
//!
//! The state belongs to one owner, which takes commands one at a time. It
//! never asks the audio sink how far a track has played: the position is
//! worked out from readings of a monotonic clock, taken when playback
//! starts and when it pauses. The owner reads the clock, hands the reading
//! in with each command, and carries out on the sink what the answer names.

use vstd::prelude::*;
use crate::track::{view_of, Track, TrackView};
use crate::volume::{clamped, in_unit_interval, is_nan, Volume, ONE_BITS};

verus! {

/// Nanoseconds in a millisecond.
pub const NANOS_PER_MILLI: u64 = 1_000_000;

/// How many commands the actor's queue holds before a sender has to wait.
pub const QUEUE_CAPACITY: usize = 32;

/// What became of opening and decoding the source that a play command
/// names.
#[derive(Clone, Copy, Debug, PartialEq, Eq, Structural)]
pub enum LoadOutcome {
    /// The source was opened and decoded and is ready to be played.
    Ready,
    /// The file is missing or cannot be read.
    OpenFailed,
    /// The file was read but holds no audio that can be decoded.
    DecodeFailed,
}

/// Why a play command did not start a track.
#[derive(Clone, Copy, Debug, PartialEq, Eq, Structural)]
pub enum ResourceError {
    /// The file is missing or cannot be read.
    Open,
    /// The file holds no audio that can be decoded.
    Decode,
}

/// A transport command, as the actor takes it from its queue.
#[derive(Debug)]
pub enum AudioCommand {
    /// Start the source at `path`; `track` is what the catalog knows of it.
    Play { path: String, track: Option<Track> },
    Pause,
    Resume,
    Stop,
    /// Move to a position, in milliseconds.
    Seek(u64),
    /// Set the volume to a number, given as its binary32 pattern.
    SetVolume(u32),
    GetStatus,
}

impl AudioCommand {
    /// The file that has to be opened and decoded before the command is
    /// handed to the playback state: the path of a play command, and
    /// nothing for any other.
    pub fn source(&self) -> (path: Option<&String>)
        ensures
            match *self {
                AudioCommand::Play { path: file, track } => path == Some(&file),
                _ => path is None,
            },
    {
        match self {
            AudioCommand::Play { path, track } => Some(path),
            _ => None,
        }
    }
}

/// What the owner of the sink has to do to it after a command.
#[derive(Clone, Copy, Debug, PartialEq, Eq, Structural)]
pub enum SinkAction {
    /// Leave the sink as it is.
    Nothing,
    /// Drop what the sink holds, hand it the new source and let it play.
    Restart,
    Pause,
    Play,
    Stop,
    /// Set the sink's volume to the number with this binary32 pattern.
    SetVolume(u32),
}

/// A snapshot of the playback state at one reading of the clock.
#[derive(Debug)]
pub struct PlaybackStatus {
    pub playing: bool,
    pub track: Option<Track>,
    pub position_ms: u64,
    pub duration_ms: Option<u64>,
    pub volume: Volume,
}

/// What a snapshot says.
pub struct StatusView {
    pub playing: bool,
    pub track: Option<TrackView>,
    pub position_ms: nat,
    pub duration_ms: Option<nat>,
    pub volume: u32,
}

impl View for PlaybackStatus {
    type V = StatusView;

    open spec fn view(&self) -> StatusView {
        StatusView {
            playing: self.playing,
            track: view_of(self.track),
            position_ms: self.position_ms as nat,
            duration_ms: match self.duration_ms {
                Some(d) => Some(d as nat),
                None => None,
            },
            volume: self.volume@,
        }
    }
}

/// The snapshot that stands in for a status that could not be had: nothing
/// playing, at position 0 and full volume.
pub open spec fn idle_status() -> StatusView {
    StatusView { playing: false, track: None, position_ms: 0, duration_ms: None, volume: ONE_BITS }
}

impl Clone for PlaybackStatus {
    fn clone(&self) -> (copy: Self)
        ensures
            copy@ == self@,
    {
        PlaybackStatus {
            playing: self.playing,
            track: self.track.clone(),
            position_ms: self.position_ms,
            duration_ms: self.duration_ms,
            volume: self.volume,
        }
    }
}

impl Default for PlaybackStatus {
    fn default() -> (status: Self)
        ensures
            status@ == idle_status(),
    {
        PlaybackStatus {
            playing: false,
            track: None,
            position_ms: 0,
            duration_ms: None,
            volume: Volume::full(),
        }
    }
}

/// How the actor answers a command.
#[derive(Debug)]
pub enum Reply {
    /// The command took effect.
    Done,
    /// The command does not apply to the present state and changed nothing.
    Ignored,
    /// The source could not be had; the state is as it was.
    Failed(ResourceError),
    /// The command is accepted by the protocol but not carried out.
    NotSupported,
    /// The snapshot that a status query asked for.
    Status(PlaybackStatus),
}

/// What a reply says.
pub enum ReplyView {
    Done,
    Ignored,
    Failed(ResourceError),
    NotSupported,
    Status(StatusView),
}

impl View for Reply {
    type V = ReplyView;

    open spec fn view(&self) -> ReplyView {
        match *self {
            Reply::Done => ReplyView::Done,
            Reply::Ignored => ReplyView::Ignored,
            Reply::Failed(e) => ReplyView::Failed(e),
            Reply::NotSupported => ReplyView::NotSupported,
            Reply::Status(s) => ReplyView::Status(s@),
        }
    }
}

/// The answer to one command: what to do to the sink, and what to tell
/// the sender.
#[derive(Debug)]
pub struct Step {
    pub action: SinkAction,
    pub reply: Reply,
}

/// What an answer says.
pub struct StepView {
    pub action: SinkAction,
    pub reply: ReplyView,
}

impl View for Step {
    type V = StepView;

    open spec fn view(&self) -> StepView {
        StepView { action: self.action, reply: self.reply@ }
    }
}

/// The mathematical content of the playback state.
pub struct PlaybackModel {
    /// Whether an audio sink is attached.
    pub sink: bool,
    /// The current track, if any.
    pub track: Option<TrackView>,
    /// The clock reading at which audio began to advance; `None` while it
    /// stands still.
    pub started: Option<nat>,
    /// Nanoseconds played before `started`, or in all while paused.
    pub offset: nat,
    /// The binary32 pattern of the volume.
    pub volume: u32,
}

/// The state of the playback actor.
pub struct PlaybackState {
    sink: bool,
    current_track: Option<Track>,
    start_time: Option<u64>,
    pause_offset: u64,
    volume: Volume,
}

impl View for PlaybackState {
    type V = PlaybackModel;

    closed spec fn view(&self) -> PlaybackModel {
        PlaybackModel {
            sink: self.sink,
            track: view_of(self.current_track),
            started: match self.start_time {
                Some(t) => Some(t as nat),
                None => None,
            },
            offset: self.pause_offset as nat,
            volume: self.volume@,
        }
    }
}

/// What holds of every playback state: audio advances only on a sink, the
/// clock values fit the machine's integers, and the volume lies in the
/// unit interval.
pub open spec fn well_formed(m: PlaybackModel) -> bool {
    &&& m.started is Some ==> m.sink
    &&& m.started matches Some(t) ==> t <= u64::MAX
    &&& m.offset <= u64::MAX
    &&& in_unit_interval(m.volume)
}

/// The time from `start` to `now`; none if the clock read less at `now`.
pub open spec fn elapsed(start: nat, now: nat) -> nat {
    if now >= start {
        (now - start) as nat
    } else {
        0
    }
}

/// The sum of two spans of time, held at the largest value the clock can
/// show.
pub open spec fn span_sum(a: nat, b: nat) -> nat {
    if a + b > u64::MAX {
        u64::MAX as nat
    } else {
        a + b
    }
}

/// The playback position at clock reading `now`, in nanoseconds: what was
/// played before the last start, and since then if audio is advancing.
pub open spec fn position_ns(m: PlaybackModel, now: nat) -> nat {
    match m.started {
        Some(start) => span_sum(elapsed(start, now), m.offset),
        None => m.offset,
    }
}

/// The playback position at clock reading `now`, in whole milliseconds.
pub open spec fn position_ms(m: PlaybackModel, now: nat) -> nat {
    position_ns(m, now) / (NANOS_PER_MILLI as nat)
}

/// Whether audio is advancing.
pub open spec fn playing(m: PlaybackModel) -> bool {
    m.started is Some
}

/// The snapshot of a state at clock reading `now`.
pub open spec fn status_of(m: PlaybackModel, now: nat) -> StatusView {
    StatusView {
        playing: playing(m),
        track: m.track,
        position_ms: position_ms(m, now),
        duration_ms: None,
        volume: m.volume,
    }
}

/// The state with which an actor starts: no track, standing still at
/// position 0, at full volume.
pub open spec fn initial(sink: bool) -> PlaybackModel {
    PlaybackModel { sink, track: None, started: None, offset: 0, volume: ONE_BITS }
}

/// The state after a play command whose source was loaded with outcome
/// `load`.
pub open spec fn after_play(
    m: PlaybackModel,
    track: Option<TrackView>,
    load: LoadOutcome,
    now: nat,
) -> PlaybackModel {
    if load == LoadOutcome::Ready && m.sink {
        PlaybackModel { track, started: Some(now), offset: 0, ..m }
    } else {
        m
    }
}

/// The state after a pause command.
pub open spec fn after_pause(m: PlaybackModel, now: nat) -> PlaybackModel {
    match m.started {
        Some(start) => PlaybackModel {
            started: None,
            offset: span_sum(m.offset, elapsed(start, now)),
            ..m
        },
        None => m,
    }
}

/// The state after a resume command.
pub open spec fn after_resume(m: PlaybackModel, now: nat) -> PlaybackModel {
    if m.sink {
        PlaybackModel { started: Some(now), ..m }
    } else {
        m
    }
}

/// The state after a stop command.
pub open spec fn after_stop(m: PlaybackModel) -> PlaybackModel {
    PlaybackModel { track: None, started: None, offset: 0, ..m }
}

/// The state after a command to set the volume to the number with
/// pattern `bits`.
pub open spec fn after_set_volume(m: PlaybackModel, bits: u32) -> PlaybackModel {
    if is_nan(bits) {
        m
    } else {
        PlaybackModel { volume: clamped(bits), ..m }
    }
}

/// The answer to a play command whose source was loaded with outcome
/// `load`: a loaded source restarts the sink, a failed load is reported
/// as the resource error it was.
pub open spec fn play_step(m: PlaybackModel, load: LoadOutcome) -> StepView {
    match load {
        LoadOutcome::Ready => if m.sink {
            StepView { action: SinkAction::Restart, reply: ReplyView::Done }
        } else {
            StepView { action: SinkAction::Nothing, reply: ReplyView::Ignored }
        },
        LoadOutcome::OpenFailed => StepView {
            action: SinkAction::Nothing,
            reply: ReplyView::Failed(ResourceError::Open),
        },
        LoadOutcome::DecodeFailed => StepView {
            action: SinkAction::Nothing,
            reply: ReplyView::Failed(ResourceError::Decode),
        },
    }
}

/// The answer to a pause command.
pub open spec fn pause_step(m: PlaybackModel) -> StepView {
    if playing(m) {
        StepView { action: SinkAction::Pause, reply: ReplyView::Done }
    } else {
        StepView { action: SinkAction::Nothing, reply: ReplyView::Ignored }
    }
}

/// The answer to a resume command.
pub open spec fn resume_step(m: PlaybackModel) -> StepView {
    if m.sink {
        StepView { action: SinkAction::Play, reply: ReplyView::Done }
    } else {
        StepView { action: SinkAction::Nothing, reply: ReplyView::Ignored }
    }
}

/// The answer to a stop command.
pub open spec fn stop_step(m: PlaybackModel) -> StepView {
    StepView {
        action: if m.sink {
            SinkAction::Stop
        } else {
            SinkAction::Nothing
        },
        reply: ReplyView::Done,
    }
}

/// The answer to a command to set the volume to the number with pattern
/// `bits`.
pub open spec fn set_volume_step(m: PlaybackModel, bits: u32) -> StepView {
    if is_nan(bits) {
        StepView { action: SinkAction::Nothing, reply: ReplyView::Ignored }
    } else {
        StepView {
            action: if m.sink {
                SinkAction::SetVolume(clamped(bits))
            } else {
                SinkAction::Nothing
            },
            reply: ReplyView::Done,
        }
    }
}

/// The answer to a seek command: seeking is not carried out.
pub open spec fn seek_step() -> StepView {
    StepView { action: SinkAction::Nothing, reply: ReplyView::NotSupported }
}

/// The answer to a status query at clock reading `now`.
pub open spec fn status_step(m: PlaybackModel, now: nat) -> StepView {
    StepView { action: SinkAction::Nothing, reply: ReplyView::Status(status_of(m, now)) }
}

/// The state after command `cmd`, taken at clock reading `now`; `load` is
/// what became of loading the source, and is read for a play command only.
pub open spec fn state_after(
    m: PlaybackModel,
    cmd: AudioCommand,
    load: LoadOutcome,
    now: nat,
) -> PlaybackModel {
    match cmd {
        AudioCommand::Play { path, track } => after_play(m, view_of(track), load, now),
        AudioCommand::Pause => after_pause(m, now),
        AudioCommand::Resume => after_resume(m, now),
        AudioCommand::Stop => after_stop(m),
        AudioCommand::Seek(_) => m,
        AudioCommand::SetVolume(bits) => after_set_volume(m, bits),
        AudioCommand::GetStatus => m,
    }
}

/// The answer to command `cmd`, taken at clock reading `now` in state `m`.
pub open spec fn step_for(
    m: PlaybackModel,
    cmd: AudioCommand,
    load: LoadOutcome,
    now: nat,
) -> StepView {
    match cmd {
        AudioCommand::Play { path, track } => play_step(m, load),
        AudioCommand::Pause => pause_step(m),
        AudioCommand::Resume => resume_step(m),
        AudioCommand::Stop => stop_step(m),
        AudioCommand::Seek(_) => seek_step(),
        AudioCommand::SetVolume(bits) => set_volume_step(m, bits),
        AudioCommand::GetStatus => status_step(m, now),
    }
}

impl PlaybackState {
    #[verifier::type_invariant]
    closed spec fn valid(self) -> bool {
        self.start_time is Some ==> self.sink
    }

    /// The state of an actor that has just started, with or without an
    /// audio sink to drive.
    pub fn new(sink: bool) -> (state: Self)
        ensures
            state@ == initial(sink),
            well_formed(state@),
    {
        PlaybackState {
            sink,
            current_track: None,
            start_time: None,
            pause_offset: 0,
            volume: Volume::full(),
        }
    }

    /// The playback position in milliseconds at clock reading `now`.
    pub fn position(&self, now: u64) -> (ms: u64)
        ensures
            ms == position_ms(self@, now as nat),
    {
        let ns: u64 = match self.start_time {
            Some(start) => now.saturating_sub(start).saturating_add(self.pause_offset),
            None => self.pause_offset,
        };
        ns / NANOS_PER_MILLI
    }

    /// Whether audio is advancing.
    pub fn is_playing(&self) -> (yes: bool)
        ensures
            yes == playing(self@),
    {
        self.start_time.is_some()
    }

    /// The snapshot of the state at clock reading `now`. The position is
    /// worked out anew at every call.
    pub fn status(&self, now: u64) -> (status: PlaybackStatus)
        ensures
            status@ == status_of(self@, now as nat),
    {
        PlaybackStatus {
            playing: self.is_playing(),
            track: self.current_track.clone(),
            position_ms: self.position(now),
            duration_ms: None,
            volume: self.volume,
        }
    }

    /// Takes a play command for `track`, whose source was loaded with
    /// outcome `load`. A loaded source replaces whatever was playing and
    /// starts at position 0; a failed load leaves the state untouched.
    pub fn play(&mut self, track: Option<Track>, load: LoadOutcome, now: u64) -> (step: Step)
        ensures
            final(self)@ == after_play(old(self)@, view_of(track), load, now as nat),
            step@ == play_step(old(self)@, load),
            well_formed(final(self)@),
    {
        proof {
            use_type_invariant(&*self);
            use_type_invariant(&self.volume);
        }
        match load {
            LoadOutcome::Ready => {
                if self.sink {
                    self.current_track = track;
                    self.start_time = Some(now);
                    self.pause_offset = 0;
                    Step { action: SinkAction::Restart, reply: Reply::Done }
                } else {
                    Step { action: SinkAction::Nothing, reply: Reply::Ignored }
                }
            },
            LoadOutcome::OpenFailed => Step {
                action: SinkAction::Nothing,
                reply: Reply::Failed(ResourceError::Open),
            },
            LoadOutcome::DecodeFailed => Step {
                action: SinkAction::Nothing,
                reply: Reply::Failed(ResourceError::Decode),
            },
        }
    }

    /// Takes a pause command: while audio advances, the time played since
    /// the last start is added to the offset and the clock is let go.
    pub fn pause(&mut self, now: u64) -> (step: Step)
        ensures
            final(self)@ == after_pause(old(self)@, now as nat),
            step@ == pause_step(old(self)@),
            well_formed(final(self)@),
    {
        proof {
            use_type_invariant(&*self);
            use_type_invariant(&self.volume);
        }
        match self.start_time {
            Some(start) => {
                self.pause_offset = self.pause_offset.saturating_add(now.saturating_sub(start));
                self.start_time = None;
                Step { action: SinkAction::Pause, reply: Reply::Done }
            },
            None => Step { action: SinkAction::Nothing, reply: Reply::Ignored },
        }
    }

    /// Takes a resume command: on a sink, audio advances from `now` on,
    /// with the offset as the base.
    pub fn resume(&mut self, now: u64) -> (step: Step)
        ensures
            final(self)@ == after_resume(old(self)@, now as nat),
            step@ == resume_step(old(self)@),
            well_formed(final(self)@),
    {
        proof {
            use_type_invariant(&*self);
            use_type_invariant(&self.volume);
        }
        if self.sink {
            self.start_time = Some(now);
            Step { action: SinkAction::Play, reply: Reply::Done }
        } else {
            Step { action: SinkAction::Nothing, reply: Reply::Ignored }
        }
    }

    /// Takes a stop command: whatever the state, no track is current
    /// afterwards and the position is 0.
    pub fn stop(&mut self) -> (step: Step)
        ensures
            final(self)@ == after_stop(old(self)@),
            step@ == stop_step(old(self)@),
            well_formed(final(self)@),
    {
        proof {
            use_type_invariant(&*self);
            use_type_invariant(&self.volume);
        }
        self.start_time = None;
        self.current_track = None;
        self.pause_offset = 0;
        Step {
            action: if self.sink {
                SinkAction::Stop
            } else {
                SinkAction::Nothing
            },
            reply: Reply::Done,
        }
    }

    /// Takes a command to set the volume to the number with pattern
    /// `bits`: the number is clamped to the unit interval, stored, and
    /// named to the sink. A pattern that is no number changes nothing.
    pub fn set_volume(&mut self, bits: u32) -> (step: Step)
        ensures
            final(self)@ == after_set_volume(old(self)@, bits),
            step@ == set_volume_step(old(self)@, bits),
            well_formed(final(self)@),
    {
        proof {
            use_type_invariant(&*self);
            use_type_invariant(&self.volume);
        }
        match Volume::clamp(bits) {
            Some(volume) => {
                self.volume = volume;
                Step {
                    action: if self.sink {
                        SinkAction::SetVolume(volume.bits())
                    } else {
                        SinkAction::Nothing
                    },
                    reply: Reply::Done,
                }
            },
            None => Step { action: SinkAction::Nothing, reply: Reply::Ignored },
        }
    }

    /// Takes a seek command. Seeking is not carried out: the state and
    /// the position stay as they are, and the reply says so.
    pub fn seek(&mut self, position_ms: u64) -> (step: Step)
        ensures
            final(self)@ == old(self)@,
            step@ == seek_step(),
            well_formed(final(self)@),
    {
        proof {
            use_type_invariant(&*self);
            use_type_invariant(&self.volume);
        }
        Step { action: SinkAction::Nothing, reply: Reply::NotSupported }
    }

    /// Takes one command from the queue at clock reading `now` and answers
    /// it. `load` is what became of opening and decoding the source that
    /// a play command names; for any other command it is not read.
    pub fn handle_command(&mut self, cmd: AudioCommand, load: LoadOutcome, now: u64) -> (step:
        Step)
        ensures
            final(self)@ == state_after(old(self)@, cmd, load, now as nat),
            step@ == step_for(old(self)@, cmd, load, now as nat),
            well_formed(final(self)@),
    {
        match cmd {
            AudioCommand::Play { path, track } => self.play(track, load, now),
            AudioCommand::Pause => self.pause(now),
            AudioCommand::Resume => self.resume(now),
            AudioCommand::Stop => self.stop(),
            AudioCommand::Seek(position_ms) => self.seek(position_ms),
            AudioCommand::SetVolume(bits) => self.set_volume(bits),
            AudioCommand::GetStatus => {
                proof {
                    use_type_invariant(&*self);
                    use_type_invariant(&self.volume);
                }
                Step { action: SinkAction::Nothing, reply: Reply::Status(self.status(now)) }
            },
        }
    }
}

/// A command together with what the actor knew when it took it.
pub struct Arrival {
    pub cmd: AudioCommand,
    pub load: LoadOutcome,
    pub now: nat,
}

/// The state after a run of commands, taken in order.
pub open spec fn state_after_all(m: PlaybackModel, arrivals: Seq<Arrival>) -> PlaybackModel
    decreases arrivals.len(),
{
    if arrivals.len() == 0 {
        m
    } else {
        let last = arrivals.last();
        state_after(state_after_all(m, arrivals.drop_last()), last.cmd, last.load, last.now)
    }
}

/// Whether a command leaves a paused position where it is: every command
/// but play, stop and resume.
pub open spec fn keeps_pause(cmd: AudioCommand) -> bool {
    !(cmd is Play) && !(cmd is Stop) && !(cmd is Resume)
}

/// Every command keeps a well-formed state well formed.
pub proof fn commands_keep_well_formed(
    m: PlaybackModel,
    cmd: AudioCommand,
    load: LoadOutcome,
    now: nat,
)
    requires
        well_formed(m),
        now <= u64::MAX,
    ensures
        well_formed(state_after(m, cmd, load, now)),
{
}

/// While audio advances and the clock has not run out, the position is
/// the time since the start added to the offset.
pub proof fn position_follows_the_clock(m: PlaybackModel, now: nat)
    requires
        m.started matches Some(start) && start <= now && now - start + m.offset <= u64::MAX,
    ensures
        position_ns(m, now) == now - m.started->0 + m.offset,
{
}

/// While paused, the position stands still: at every later reading of
/// the clock it is what it was when the pause command was taken.
pub proof fn pause_freezes_position(m: PlaybackModel, paused_at: nat, now: nat)
    ensures
        position_ns(after_pause(m, paused_at), now) == position_ns(m, paused_at),
        position_ms(after_pause(m, paused_at), now) == position_ms(m, paused_at),
        !playing(after_pause(m, paused_at)),
{
}

/// Pausing loses and gains no time: the position just after a resume is
/// the position just before the pause that went before it.
pub proof fn pause_then_resume_keeps_position(m: PlaybackModel, paused_at: nat, resumed_at: nat)
    requires
        well_formed(m),
    ensures
        position_ns(after_resume(after_pause(m, paused_at), resumed_at), resumed_at)
            == position_ns(m, paused_at),
        position_ms(after_resume(after_pause(m, paused_at), resumed_at), resumed_at)
            == position_ms(m, paused_at),
{
}

/// A run of commands without play, stop or resume leaves a state that
/// stands still as it is in all that the position is worked out from.
pub proof fn paused_run_keeps_position(m: PlaybackModel, arrivals: Seq<Arrival>)
    requires
        !playing(m),
        forall|i: int| 0 <= i < arrivals.len() ==> keeps_pause(#[trigger] arrivals[i].cmd),
    ensures
        state_after_all(m, arrivals).started == m.started,
        state_after_all(m, arrivals).offset == m.offset,
        state_after_all(m, arrivals).sink == m.sink,
        state_after_all(m, arrivals).track == m.track,
    decreases arrivals.len(),
{
    if arrivals.len() > 0 {
        let earlier = arrivals.drop_last();
        assert forall|i: int| 0 <= i < earlier.len() implies keeps_pause(
            #[trigger] earlier[i].cmd,
        ) by {
            assert(earlier[i] == arrivals[i]);
        }
        paused_run_keeps_position(m, earlier);
        assert(keeps_pause(arrivals[arrivals.len() - 1].cmd));
    }
}

/// Pausing loses and gains no time, whatever is asked of the actor while
/// it is paused: after a pause, any run of commands without play, stop or
/// resume, and then a resume, the position is what it was just before
/// the pause.
pub proof fn pause_run_resume_keeps_position(
    m: PlaybackModel,
    paused_at: nat,
    arrivals: Seq<Arrival>,
    resumed_at: nat,
)
    requires
        well_formed(m),
        forall|i: int| 0 <= i < arrivals.len() ==> keeps_pause(#[trigger] arrivals[i].cmd),
    ensures
        position_ms(
            after_resume(state_after_all(after_pause(m, paused_at), arrivals), resumed_at),
            resumed_at,
        ) == position_ms(m, paused_at),
{
    paused_run_keeps_position(after_pause(m, paused_at), arrivals);
}

/// A stop command leaves no current track and position 0, whatever the
/// state before it and whenever the position is read.
pub proof fn stop_resets(m: PlaybackModel, now: nat)
    ensures
        after_stop(m).track is None,
        !playing(after_stop(m)),
        position_ms(after_stop(m), now) == 0,
        status_of(after_stop(m), now).track is None,
        status_of(after_stop(m), now).position_ms == 0,
{
}

/// Setting the volume to any number stores that number clamped to the
/// unit interval, and touches nothing else.
pub proof fn set_volume_stores_clamped(m: PlaybackModel, bits: u32)
    requires
        !is_nan(bits),
    ensures
        after_set_volume(m, bits).volume == clamped(bits),
        in_unit_interval(after_set_volume(m, bits).volume),
        after_set_volume(m, bits) == (PlaybackModel { volume: clamped(bits), ..m }),
{
}

/// A status query changes nothing, and two snapshots of one state differ
/// in the position alone, which does not go back as the clock goes on and
/// stands still unless audio is advancing.
pub proof fn status_query_is_pure(m: PlaybackModel, first: nat, second: nat)
    requires
        first <= second,
    ensures
        state_after(m, AudioCommand::GetStatus, LoadOutcome::Ready, first) == m,
        status_of(m, first) == (StatusView {
            position_ms: position_ms(m, first),
            ..status_of(m, second)
        }),
        position_ms(m, first) <= position_ms(m, second),
        !playing(m) ==> status_of(m, first) == status_of(m, second),
{
    assert(position_ns(m, first) <= position_ns(m, second));
}

/// A play command whose source could not be loaded is answered with the
/// resource error and leaves the state as it was: the same track, and the
/// same position at every reading of the clock.
pub proof fn failed_play_changes_nothing(
    m: PlaybackModel,
    track: Option<TrackView>,
    load: LoadOutcome,
    now: nat,
    later: nat,
)
    requires
        load != LoadOutcome::Ready,
    ensures
        after_play(m, track, load, now) == m,
        after_play(m, track, load, now).track == m.track,
        position_ms(after_play(m, track, load, now), later) == position_ms(m, later),
        play_step(m, load).reply is Failed,
        play_step(m, load).action == SinkAction::Nothing,
{
}

/// A play command whose source was loaded makes its track the current
/// one and starts it at position 0. Nothing of what was playing before
/// is left: but for the volume, the state is that of an actor that has
/// played nothing else.
pub proof fn play_starts_afresh(m: PlaybackModel, track: Option<TrackView>, now: nat)
    requires
        m.sink,
    ensures
        after_play(m, track, LoadOutcome::Ready, now).track == track,
        playing(after_play(m, track, LoadOutcome::Ready, now)),
        position_ms(after_play(m, track, LoadOutcome::Ready, now), now) == 0,
        after_play(m, track, LoadOutcome::Ready, now) == (PlaybackModel {
            volume: m.volume,
            ..after_play(initial(true), track, LoadOutcome::Ready, now)
        }),
{
}

} // verus!
