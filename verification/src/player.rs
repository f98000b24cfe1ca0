//! The playback engine: shared playback state, the command vocabulary, and
//! the engine's command-processing state machine.
//!
//! The engine owns at most one active output stream at a time.  It starts
//! `Idle`, enters `Playing` when a `Play` command succeeds, and reaches the
//! terminal `Stopped` state on `Stop`, after which no command has any effect.
//! Opening a stream is the device adapter's work; the adapter reports how the
//! attempt went as a [`StreamOutcome`], and [`AudioPlayer::handle_command`]
//! decides the transition from the prior state and that report alone.

use vstd::prelude::*;

use crate::buffer::AudioData;
use crate::buffer::cursor_after;
use crate::buffer::slot_value;

verus! {

/// Volume the engine starts with: half of `crate::buffer::VOLUME_SCALE`.
pub const DEFAULT_VOLUME: u32 = 500;

/// A control intent, consumed exactly once, in send order.
#[derive(Clone, Debug)]
pub enum PlayerCommand {
    /// Replace the active buffer (if any) and start playing this one.
    Play(AudioData),
    /// Store a new volume; no stream reconfiguration.
    SetVolume(u32),
    /// Tear the stream down and terminate command processing for good.
    Stop,
}

/// The engine's position in its lifecycle.
#[derive(Clone, Copy, Debug, PartialEq, Eq, Structural)]
pub enum EngineStatus {
    /// No stream open, waiting for a command.
    Idle,
    /// A stream is open and the callback is consuming samples.
    Playing,
    /// Terminal: the command loop has exited; nothing is processed any more.
    Stopped,
}

/// The device adapter's report on one attempt to open an output stream.
#[derive(Clone, Copy, Debug, PartialEq, Eq, Structural)]
pub enum StreamOutcome {
    /// A stream was negotiated and opened.
    Opened,
    /// No usable output device or format was found.
    NoUsableConfig,
    /// The device rejected stream creation.
    OpenRejected,
}

/// A failure to begin playback; fatal for that attempt only.
#[derive(Clone, Copy, Debug, PartialEq, Eq, Structural)]
pub enum PlayError {
    /// No usable output device or format was found.
    Configuration,
    /// The device rejected stream creation.
    Stream,
}

/// What one command did when the engine processed it.
#[derive(Clone, Copy, Debug, PartialEq, Eq, Structural)]
pub enum CommandOutcome {
    /// A `Play` succeeded: the engine is now playing the new buffer.
    Started,
    /// A `Play` failed; the engine holds no buffer and no stream.
    Rejected(PlayError),
    /// A `SetVolume` stored its value.
    VolumeSet,
    /// A `Stop` made the engine terminal.
    Halted,
    /// The engine was already stopped; the command had no effect.
    Ignored,
}

/// The playback engine's complete control state: lifecycle status, the shared
/// volume the real-time callback reads, and the active buffer it reads from.
#[derive(Clone, Debug)]
#[verifier::ext_equal]
pub struct AudioPlayer {
    /// Where the engine stands in its lifecycle.
    pub status: EngineStatus,
    /// Volume in units of `1 / crate::buffer::VOLUME_SCALE` of full gain.
    pub volume: u32,
    /// The buffer the callback draws samples from while playing.
    pub audio: Option<AudioData>,
}

/// The engine's transition function: the state after processing `cmd` in
/// state `s`, the device adapter having reported `stream` for any attempt to
/// open an output stream.  `Stopped` is absorbing; a failed `Play` releases
/// the previous stream and buffer and leaves the engine idle; `SetVolume`
/// stores its value whatever the status; `Stop` is irreversible.
pub open spec fn step_spec(s: AudioPlayer, cmd: PlayerCommand, stream: StreamOutcome) -> AudioPlayer {
    if s.status is Stopped {
        s
    } else {
        match cmd {
            PlayerCommand::Play(b) => match stream {
                StreamOutcome::Opened => AudioPlayer {
                    status: EngineStatus::Playing,
                    volume: s.volume,
                    audio: Some(b),
                },
                _ => AudioPlayer { status: EngineStatus::Idle, volume: s.volume, audio: None },
            },
            PlayerCommand::SetVolume(v) => AudioPlayer { volume: v, ..s },
            PlayerCommand::Stop => AudioPlayer {
                status: EngineStatus::Stopped,
                volume: s.volume,
                audio: None,
            },
        }
    }
}

/// What processing `cmd` in state `s` reports back, matching [`step_spec`]:
/// exactly the commands run in a non-terminal state do anything, and a `Play`
/// fails precisely when the adapter could not open a stream.
pub open spec fn outcome_spec(s: AudioPlayer, cmd: PlayerCommand, stream: StreamOutcome) -> CommandOutcome {
    if s.status is Stopped {
        CommandOutcome::Ignored
    } else {
        match cmd {
            PlayerCommand::Play(_) => match stream {
                StreamOutcome::Opened => CommandOutcome::Started,
                StreamOutcome::NoUsableConfig => CommandOutcome::Rejected(PlayError::Configuration),
                StreamOutcome::OpenRejected => CommandOutcome::Rejected(PlayError::Stream),
            },
            PlayerCommand::SetVolume(_) => CommandOutcome::VolumeSet,
            PlayerCommand::Stop => CommandOutcome::Halted,
        }
    }
}

/// The value of output slot `i` of a buffer-fill request arriving in engine
/// state `s`: samples are drawn solely from the active buffer, scaled by the
/// shared volume, and the callback emits silence whenever the engine is not
/// playing or holds no buffer.
pub open spec fn render_slot(s: AudioPlayer, i: int) -> int {
    match s.audio {
        Some(a) => if s.status is Playing {
            slot_value(a.data@, a.cursor_steps(), s.volume, i)
        } else {
            0
        },
        None => 0,
    }
}

impl Default for AudioPlayer {
    /// A fresh engine: idle, default volume, no buffer.
    fn default() -> (p: AudioPlayer)
        ensures
            p.status is Idle,
            p.volume == DEFAULT_VOLUME,
            p.audio is None,
    {
        AudioPlayer { status: EngineStatus::Idle, volume: DEFAULT_VOLUME, audio: None }
    }
}

impl AudioPlayer {
    /// A fresh engine: idle, default volume, no buffer.
    pub fn new() -> (p: AudioPlayer)
        ensures
            p.status is Idle,
            p.volume == DEFAULT_VOLUME,
            p.audio is None,
    {
        AudioPlayer::default()
    }

    /// Store a new volume directly in shared playback state.  This always
    /// succeeds, whatever the playback status, and touches nothing else.
    pub fn set_volume(&mut self, value: u32)
        ensures
            final(self).volume == value,
            final(self).status == old(self).status,
            final(self).audio == old(self).audio,
    {
        self.volume = value;
    }

    /// Process one command: the engine moves to exactly the state
    /// [`step_spec`] gives and reports exactly what [`outcome_spec`] gives.
    /// Errors are local to the command — after a failed `Play` the engine
    /// keeps processing, and only `Stop` ends its life.
    pub fn handle_command(&mut self, cmd: PlayerCommand, stream: StreamOutcome) -> (r: CommandOutcome)
        ensures
            *final(self) == step_spec(*old(self), cmd, stream),
            r == outcome_spec(*old(self), cmd, stream),
    {
        match self.status {
            EngineStatus::Stopped => CommandOutcome::Ignored,
            _ => match cmd {
                PlayerCommand::Play(b) => match stream {
                    StreamOutcome::Opened => {
                        self.status = EngineStatus::Playing;
                        self.audio = Some(b);
                        CommandOutcome::Started
                    },
                    StreamOutcome::NoUsableConfig => {
                        self.status = EngineStatus::Idle;
                        self.audio = None;
                        CommandOutcome::Rejected(PlayError::Configuration)
                    },
                    StreamOutcome::OpenRejected => {
                        self.status = EngineStatus::Idle;
                        self.audio = None;
                        CommandOutcome::Rejected(PlayError::Stream)
                    },
                },
                PlayerCommand::SetVolume(v) => {
                    self.volume = v;
                    CommandOutcome::VolumeSet
                },
                PlayerCommand::Stop => {
                    self.status = EngineStatus::Stopped;
                    self.audio = None;
                    CommandOutcome::Halted
                },
            },
        }
    }

    /// One buffer-fill request from the device, at the engine level: while
    /// playing a buffer, delegate to its fill and advance its cursor; in any
    /// other state emit silence and change nothing.
    pub fn render(&mut self, n: usize) -> (out: Vec<i64>)
        ensures
            out@.len() == n,
            forall|i: int| 0 <= i < n ==> #[trigger] out@[i] as int == render_slot(*old(self), i),
            final(self).status == old(self).status,
            final(self).volume == old(self).volume,
            old(self).audio matches Some(a) ==> (old(self).status is Playing ==> (
                final(self).audio matches Some(a2)
                    && a2.data == a.data
                    && a2.sample_rate == a.sample_rate
                    && a2.channels == a.channels
                    && a2.cursor_steps() == cursor_after(a.data@, a.cursor_steps(), n as int)
                    && a2.cursor_steps() >= a.cursor_steps()
            )),
            !(old(self).status is Playing && old(self).audio is Some) ==> *final(self) == *old(self),
    {
        let playing = match self.status {
            EngineStatus::Playing => true,
            _ => false,
        };
        if playing {
            let volume = self.volume;
            if let Some(a) = &mut self.audio {
                let out = a.fill_into(volume, n);
                return out;
            }
        }
        let mut out: Vec<i64> = Vec::new();
        let mut k: usize = 0;
        while k < n
            invariant
                k <= n,
                out@.len() == k,
                forall|i: int| 0 <= i < k ==> #[trigger] out@[i] as int == 0,
            decreases n - k,
        {
            out.push(0i64);
            k = k + 1;
        }
        out
    }
}

/// One delivered command together with the device adapter's report for any
/// stream it asked the adapter to open.
pub struct CommandStep {
    /// The control intent, in delivery order.
    pub cmd: PlayerCommand,
    /// How the adapter's attempt to open a stream went, had one been asked for.
    pub stream: StreamOutcome,
}

/// The engine state after the first `n` of the delivered `steps` have been
/// processed in order, starting from `s`.
pub open spec fn state_after(s: AudioPlayer, steps: Seq<CommandStep>, n: int) -> AudioPlayer
    decreases n,
{
    if n <= 0 {
        s
    } else {
        step_spec(state_after(s, steps, n - 1), steps[n - 1].cmd, steps[n - 1].stream)
    }
}

impl AudioPlayer {
    /// The engine's command loop: drain the delivered commands in order,
    /// applying each with [`AudioPlayer::handle_command`], and report what
    /// each one did.  Commands are consumed exactly once and in order — the
    /// state moves through exactly the [`state_after`] chain — and once a
    /// `Stop` is processed every later command reports `Ignored`.
    pub fn run_commands(&mut self, steps: Vec<CommandStep>) -> (outcomes: Vec<CommandOutcome>)
        ensures
            *final(self) == state_after(*old(self), steps@, steps@.len() as int),
            outcomes@.len() == steps@.len(),
            forall|i: int| 0 <= i < steps@.len() ==> #[trigger] outcomes@[i]
                == outcome_spec(state_after(*old(self), steps@, i), steps@[i].cmd, steps@[i].stream),
    {
        let ghost init: AudioPlayer = *self;
        let ghost all: Seq<CommandStep> = steps@;
        let mut remaining = steps;
        let total: usize = remaining.len();
        let mut outcomes: Vec<CommandOutcome> = Vec::new();
        let mut done: usize = 0;
        while remaining.len() > 0
            invariant
                all.len() == total,
                done + remaining@.len() == all.len(),
                remaining@ == all.skip(done as int),
                outcomes@.len() == done,
                *self == state_after(init, all, done as int),
                forall|i: int| 0 <= i < done ==> #[trigger] outcomes@[i]
                    == outcome_spec(state_after(init, all, i), all[i].cmd, all[i].stream),
            decreases remaining@.len(),
        {
            let step = remaining.remove(0);
            proof {
                assert(remaining@ =~= all.skip(done + 1));
            }
            let outcome = self.handle_command(step.cmd, step.stream);
            outcomes.push(outcome);
            done = done + 1;
        }
        outcomes
    }
}

/// Idempotence of `SetVolume`: sending the same volume value twice in a row
/// leaves the engine in the very state that sending it once does, so every
/// observable output afterwards is the same.
pub proof fn lemma_set_volume_idempotent(
    s: AudioPlayer,
    v: u32,
    first: StreamOutcome,
    second: StreamOutcome,
)
    ensures
        step_spec(step_spec(s, PlayerCommand::SetVolume(v), first), PlayerCommand::SetVolume(v), second)
            == step_spec(s, PlayerCommand::SetVolume(v), first),
{
}

/// Replacement: a `Play(b2)` processed after a `Play(b1)`, however far `b1`
/// had got, leaves `b2` as the one active buffer — every later output sample
/// is drawn solely from `b2`, never from `b1`.
pub proof fn lemma_replacement(s: AudioPlayer, b1: AudioData, b2: AudioData)
    requires
        !(s.status is Stopped),
    ensures
        ({
            let after = step_spec(
                step_spec(s, PlayerCommand::Play(b1), StreamOutcome::Opened),
                PlayerCommand::Play(b2),
                StreamOutcome::Opened,
            );
            &&& after.status is Playing
            &&& after.volume == s.volume
            &&& after.audio == Some(b2)
            &&& forall|i: int| #[trigger] render_slot(after, i)
                == slot_value(b2.data@, b2.cursor_steps(), s.volume, i)
        }),
{
}

/// Termination: `Stop` makes the engine terminal, and from then on every
/// command — a later `SetVolume` included — changes nothing and reports
/// nothing but `Ignored`.
pub proof fn lemma_no_command_after_stop(
    s: AudioPlayer,
    cmd: PlayerCommand,
    first: StreamOutcome,
    second: StreamOutcome,
)
    ensures
        ({
            let stopped = step_spec(s, PlayerCommand::Stop, first);
            &&& stopped.status is Stopped
            &&& step_spec(stopped, cmd, second) == stopped
            &&& outcome_spec(stopped, cmd, second) is Ignored
        }),
{
}

} // verus!
