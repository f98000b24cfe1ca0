use audio_player::buffer::AudioData;
use audio_player::buffer::SAMPLE_UNIT;
use audio_player::buffer::VOLUME_SCALE;
use audio_player::player::AudioPlayer;
use audio_player::player::CommandOutcome;
use audio_player::player::CommandStep;
use audio_player::player::EngineStatus;
use audio_player::player::PlayError;
use audio_player::player::PlayerCommand;
use audio_player::player::StreamOutcome;
use audio_player::player::DEFAULT_VOLUME;

fn buffer_of(samples: Vec<i32>) -> AudioData {
    AudioData {
        data: samples,
        sample_rate: 44100,
        channels: 2,
        position_whole: 0,
        position_half: false,
    }
}

#[test]
fn default_audio_data_is_empty() {
    let d = AudioData::default();
    assert_eq!(d.data.len(), 0);
    assert_eq!(d.sample_rate, 44100);
    assert_eq!(d.channels, 2);
    assert_eq!(d.position_whole, 0);
    assert!(!d.position_half);
}

#[test]
fn default_player_is_idle_at_half_volume() {
    let p = AudioPlayer::default();
    assert_eq!(p.status, EngineStatus::Idle);
    assert_eq!(p.volume, DEFAULT_VOLUME);
    assert_eq!(p.volume, VOLUME_SCALE / 2);
    assert!(p.audio.is_none());
    let q = AudioPlayer::new();
    assert_eq!(q.status, EngineStatus::Idle);
    assert_eq!(q.volume, DEFAULT_VOLUME);
    assert!(q.audio.is_none());
}

#[test]
fn scaling_is_linear() {
    // Each output sample is exactly source * volume; the half-step cursor
    // emits every source sample twice.
    let mut b = buffer_of(vec![1000, -2000, 3]);
    let out = b.fill_into(300, 6);
    assert_eq!(out, vec![300_000, 300_000, -600_000, -600_000, 900, 900]);

    // Linearity across another volume: doubling the volume doubles each output.
    let mut b2 = buffer_of(vec![1000, -2000, 3]);
    let out2 = b2.fill_into(600, 6);
    for (a, c) in out.iter().zip(out2.iter()) {
        assert_eq!(2 * a, *c);
    }
}

#[test]
fn cursor_advances_half_step_per_sample_and_never_decreases() {
    let mut b = buffer_of(vec![10, 20, 30]);
    let _ = b.fill_into(1000, 1);
    assert_eq!(b.position_whole, 0);
    assert!(b.position_half);
    let _ = b.fill_into(1000, 1);
    assert_eq!(b.position_whole, 1);
    assert!(!b.position_half);
    let _ = b.fill_into(1000, 3);
    assert_eq!(b.position_whole, 2);
    assert!(b.position_half);
    // Beyond the end the cursor stops exactly at the end and stays there.
    let _ = b.fill_into(1000, 5);
    assert_eq!(b.position_whole, 3);
    assert!(!b.position_half);
    let _ = b.fill_into(1000, 5);
    assert_eq!(b.position_whole, 3);
    assert!(!b.position_half);
}

#[test]
fn exhausted_buffer_yields_silence_indefinitely() {
    let mut b = buffer_of(vec![500, 600]);
    let first = b.fill_into(1000, 4);
    assert_eq!(first, vec![500_000, 500_000, 600_000, 600_000]);
    for _ in 0..3 {
        let more = b.fill_into(1000, 7);
        assert_eq!(more, vec![0; 7]);
        assert_eq!(b.position_whole, 2);
        assert!(!b.position_half);
    }
}

#[test]
fn set_volume_twice_is_same_as_once() {
    let mut once = AudioPlayer::new();
    let mut twice = AudioPlayer::new();
    let b = buffer_of(vec![1000; 4]);
    let _ = once.handle_command(PlayerCommand::Play(b.clone()), StreamOutcome::Opened);
    let _ = twice.handle_command(PlayerCommand::Play(b), StreamOutcome::Opened);

    let r1 = once.handle_command(PlayerCommand::SetVolume(700), StreamOutcome::Opened);
    let r2a = twice.handle_command(PlayerCommand::SetVolume(700), StreamOutcome::Opened);
    let r2b = twice.handle_command(PlayerCommand::SetVolume(700), StreamOutcome::Opened);
    assert_eq!(r1, CommandOutcome::VolumeSet);
    assert_eq!(r2a, CommandOutcome::VolumeSet);
    assert_eq!(r2b, CommandOutcome::VolumeSet);
    assert_eq!(once.volume, twice.volume);
    assert_eq!(once.status, twice.status);
    assert_eq!(once.render(8), twice.render(8));
}

#[test]
fn play_replaces_the_active_buffer() {
    let mut p = AudioPlayer::new();
    p.set_volume(1000);
    let b1 = buffer_of(vec![1111; 8]);
    let b2 = buffer_of(vec![-3000; 2]);
    let r1 = p.handle_command(PlayerCommand::Play(b1), StreamOutcome::Opened);
    assert_eq!(r1, CommandOutcome::Started);
    let heard = p.render(3);
    assert_eq!(heard, vec![1_111_000; 3]);

    // Replace b1 well before it is exhausted: everything heard afterwards
    // comes from b2 alone, from b2's own cursor.
    let r2 = p.handle_command(PlayerCommand::Play(b2), StreamOutcome::Opened);
    assert_eq!(r2, CommandOutcome::Started);
    let heard2 = p.render(6);
    assert_eq!(heard2, vec![-3_000_000, -3_000_000, -3_000_000, -3_000_000, 0, 0]);
}

#[test]
fn stop_is_terminal_and_later_commands_are_ignored() {
    let mut p = AudioPlayer::new();
    let b = buffer_of(vec![100; 2]);
    let _ = p.handle_command(PlayerCommand::Play(b), StreamOutcome::Opened);
    let halted = p.handle_command(PlayerCommand::Stop, StreamOutcome::Opened);
    assert_eq!(halted, CommandOutcome::Halted);
    assert_eq!(p.status, EngineStatus::Stopped);
    assert!(p.audio.is_none());

    let volume_before = p.volume;
    let ignored = p.handle_command(PlayerCommand::SetVolume(999), StreamOutcome::Opened);
    assert_eq!(ignored, CommandOutcome::Ignored);
    assert_eq!(p.volume, volume_before);
    let ignored_play = p.handle_command(
        PlayerCommand::Play(buffer_of(vec![7])),
        StreamOutcome::Opened,
    );
    assert_eq!(ignored_play, CommandOutcome::Ignored);
    assert_eq!(p.status, EngineStatus::Stopped);
    assert_eq!(p.render(4), vec![0; 4]);
}

#[test]
fn run_commands_applies_in_order_and_stops_processing_after_stop() {
    let mut p = AudioPlayer::new();
    let steps = vec![
        CommandStep {
            cmd: PlayerCommand::Play(buffer_of(vec![10, 20])),
            stream: StreamOutcome::Opened,
        },
        CommandStep { cmd: PlayerCommand::SetVolume(800), stream: StreamOutcome::Opened },
        CommandStep { cmd: PlayerCommand::Stop, stream: StreamOutcome::Opened },
        CommandStep { cmd: PlayerCommand::SetVolume(100), stream: StreamOutcome::Opened },
    ];
    let outcomes = p.run_commands(steps);
    assert_eq!(
        outcomes,
        vec![
            CommandOutcome::Started,
            CommandOutcome::VolumeSet,
            CommandOutcome::Halted,
            CommandOutcome::Ignored,
        ]
    );
    assert_eq!(p.status, EngineStatus::Stopped);
    assert_eq!(p.volume, 800);
    assert!(p.audio.is_none());
}

#[test]
fn scenario_four_unit_samples_at_half_volume() {
    // Buffer of four samples at 1.0, volume 500 of the 1000 scale: eight
    // output samples of exactly 0.5, then only silence.
    let mut p = AudioPlayer::new();
    let b = buffer_of(vec![SAMPLE_UNIT; 4]);
    let started = p.handle_command(PlayerCommand::Play(b), StreamOutcome::Opened);
    assert_eq!(started, CommandOutcome::Started);
    assert_eq!(p.volume, 500);

    let out = p.render(8);
    assert_eq!(out.len(), 8);
    let unit = (SAMPLE_UNIT as i64) * (VOLUME_SCALE as i64);
    for v in &out {
        assert_eq!(*v, 500_000);
        assert_eq!(*v as f64 / unit as f64, 0.5);
    }
    let silence = p.render(5);
    assert_eq!(silence, vec![0; 5]);
}

#[test]
fn failed_play_reports_error_and_volume_still_applies() {
    let mut p = AudioPlayer::new();
    let b = buffer_of(vec![1000; 3]);

    // No usable device configuration: the play is rejected, the engine stays
    // silent but alive.
    let rejected = p.handle_command(PlayerCommand::Play(b.clone()), StreamOutcome::NoUsableConfig);
    assert_eq!(rejected, CommandOutcome::Rejected(PlayError::Configuration));
    assert_eq!(p.status, EngineStatus::Idle);
    assert!(p.audio.is_none());
    assert_eq!(p.render(3), vec![0; 3]);

    // A volume sent after the failure still succeeds ...
    let set = p.handle_command(PlayerCommand::SetVolume(250), StreamOutcome::Opened);
    assert_eq!(set, CommandOutcome::VolumeSet);

    // ... and is observable on the next successful play.
    let started = p.handle_command(PlayerCommand::Play(b), StreamOutcome::Opened);
    assert_eq!(started, CommandOutcome::Started);
    assert_eq!(p.render(2), vec![250_000, 250_000]);
}

#[test]
fn rejected_stream_creation_is_a_stream_error() {
    let mut p = AudioPlayer::new();
    let rejected = p.handle_command(
        PlayerCommand::Play(buffer_of(vec![1])),
        StreamOutcome::OpenRejected,
    );
    assert_eq!(rejected, CommandOutcome::Rejected(PlayError::Stream));
    assert_eq!(p.status, EngineStatus::Idle);
    assert!(p.audio.is_none());
}

#[test]
fn render_when_idle_is_silence_and_changes_nothing() {
    let mut p = AudioPlayer::new();
    assert_eq!(p.render(4), vec![0; 4]);
    assert_eq!(p.status, EngineStatus::Idle);
    assert_eq!(p.volume, DEFAULT_VOLUME);
    assert!(p.audio.is_none());
}
