use zeroscope::pacing::{FailedStep, FrameInfo, PacingState, Phase, TickEvent};
use zeroscope::sink::{forward_chunks, Chunk};
use zeroscope::PipelineError;

/// A simulated encoder: exactly one chunk per submitted frame. In
/// buffering mode it holds every chunk back until drained, the way a
/// hardware encoder may; otherwise chunks are available to poll at
/// once.
struct SimEncoder {
    width: u32,
    height: u32,
    pending: Vec<Chunk>,
    drained: bool,
    buffering: bool,
}

impl SimEncoder {
    fn new(width: u32, height: u32, buffering: bool) -> Self {
        SimEncoder { width, height, pending: Vec::new(), drained: false, buffering }
    }

    fn encode(&mut self, id: u8) {
        assert!(!self.drained, "encode after drain began");
        self.pending.push(Chunk { payload: vec![id] });
    }

    fn drain(&mut self) {
        self.drained = true;
    }

    fn poll(&mut self) -> Option<Chunk> {
        if self.buffering && !self.drained {
            None
        } else if self.pending.is_empty() {
            None
        } else {
            Some(self.pending.remove(0))
        }
    }
}

/// Run the pacing decisions over a script of ticks, performing each
/// plan against the simulated encoder, and return the sink log plus the
/// geometries the encoder was constructed with.
fn drive(
    ticks: &[(Option<(u32, u32)>, bool)],
    buffering: bool,
) -> (Vec<Chunk>, Vec<(u32, u32)>, PacingState) {
    let mut pacing = PacingState::new(1, 0);
    let mut encoder: Option<SimEncoder> = None;
    let mut constructions: Vec<(u32, u32)> = Vec::new();
    let mut sink: Vec<Chunk> = Vec::new();
    let mut next_id = 0u8;
    let mut saw_stop = false;

    for &(geometry, stop) in ticks {
        let ev = TickEvent {
            frame: geometry.map(|(w, h)| FrameInfo { width: w, height: h }),
            stop,
        };
        saw_stop = saw_stop || stop;
        let plan = pacing.on_tick(ev);
        if let Some(g) = plan.construct {
            assert!(encoder.is_none(), "encoder constructed twice");
            constructions.push((g.width, g.height));
            encoder = Some(SimEncoder::new(g.width, g.height, buffering));
        }
        if plan.submit {
            encoder.as_mut().unwrap().encode(next_id);
            next_id += 1;
        }
        if plan.drain {
            encoder.as_mut().unwrap().drain();
        }
        if plan.poll {
            let enc = encoder.as_mut().unwrap();
            let mut polled = Vec::new();
            while let Some(chunk) = enc.poll() {
                polled.push(chunk);
            }
            forward_chunks(&mut sink, polled);
        }
    }
    if saw_stop {
        pacing.finish();
    }
    (sink, constructions, pacing)
}

fn ids(sink: &[Chunk]) -> Vec<u8> {
    sink.iter().map(|c| c.payload[0]).collect()
}

#[test]
fn test_ten_frames_yield_ten_chunks_in_order() {
    // One chunk per submitted frame: ten frames in, ten chunks out, in
    // submission order, the drain finding nothing left behind.
    let mut ticks: Vec<(Option<(u32, u32)>, bool)> = Vec::new();
    for _ in 0..10 {
        ticks.push((Some((1920, 1080)), false));
    }
    ticks.push((None, true));
    let (sink, constructions, pacing) = drive(&ticks, false);
    assert_eq!(ids(&sink), vec![0, 1, 2, 3, 4, 5, 6, 7, 8, 9]);
    assert_eq!(constructions.len(), 1);
    assert_eq!(pacing.phase(), Phase::Stopped);
}

#[test]
fn test_frameless_ticks_are_not_errors() {
    // Capture produces nothing for N ticks: the loop completes them
    // all, emits nothing, and still terminates cleanly on a stop.
    let mut ticks: Vec<(Option<(u32, u32)>, bool)> = Vec::new();
    for _ in 0..8 {
        ticks.push((None, false));
    }
    ticks.push((None, true));
    let (sink, constructions, pacing) = drive(&ticks, false);
    assert!(sink.is_empty());
    assert!(constructions.is_empty());
    assert_eq!(pacing.phase(), Phase::Stopped);
}

#[test]
fn test_gaps_between_frames_skip_submission() {
    let ticks = vec![
        (None, false),
        (Some((1280, 720)), false),
        (None, false),
        (Some((1280, 720)), false),
        (None, true),
    ];
    let (sink, constructions, pacing) = drive(&ticks, false);
    assert_eq!(ids(&sink), vec![0, 1]);
    assert_eq!(constructions, vec![(1280, 720)]);
    assert_eq!(pacing.phase(), Phase::Stopped);
}

#[test]
fn test_stop_mid_stream_drains_everything_to_the_sink() {
    // The encoder buffers internally; the stop arrives after frame 5 of
    // a planned 10. No encode happens once the drain begins (the
    // simulated encoder panics on that), and every chunk the drain's
    // polls produce reaches the sink, in order, before the loop ends.
    let mut ticks: Vec<(Option<(u32, u32)>, bool)> = Vec::new();
    for _ in 0..5 {
        ticks.push((Some((1920, 1080)), false));
    }
    ticks.push((Some((1920, 1080)), true));
    let (sink, _constructions, pacing) = drive(&ticks, true);
    // Nothing reached the sink before the drain...
    // ...but everything buffered was flushed by it.
    assert_eq!(ids(&sink), vec![0, 1, 2, 3, 4]);
    assert_eq!(pacing.phase(), Phase::Stopped);
}

#[test]
fn test_encoder_constructed_once_with_first_frame_geometry() {
    // Construction happens on the first tick that sees a frame, binding
    // that frame's width and height; later frames with other geometry
    // never re-construct.
    let ticks = vec![
        (None, false),
        (None, false),
        (Some((640, 480)), false),
        (Some((1920, 1080)), false),
        (Some((1920, 1080)), false),
        (None, true),
    ];
    let (sink, constructions, _pacing) = drive(&ticks, false);
    assert_eq!(constructions, vec![(640, 480)]);
    assert_eq!(ids(&sink), vec![0, 1, 2]);
}

#[test]
fn test_skip_ahead_cadence() {
    // Period 100, first target 1100. A tick that finishes early sleeps
    // until its target and the target advances one period; a tick past
    // its target skips ahead to one period from now.
    let mut pacing = PacingState::new(100, 1000);
    assert_eq!(pacing.next_wake(1050), Some(1100));
    assert_eq!(pacing.next_wake(1150), Some(1200));
    // Overran: 1305 > 1300, so no sleep and the target resets.
    assert_eq!(pacing.next_wake(1305), None);
    assert_eq!(pacing.next_wake(1310), Some(1405));
}

#[test]
fn test_period_for_sixty_fps() {
    assert_eq!(zeroscope::pacing::period_nanos_for_fps(60), 16_666_666);
    assert_eq!(zeroscope::pacing::period_nanos_for_fps(1), 1_000_000_000);
}

#[test]
fn test_failures_are_fatal_and_classified() {
    let mut pacing = PacingState::new(1, 0);
    assert_eq!(
        pacing.fail(FailedStep::EncoderConstruction),
        PipelineError::Initialization
    );
    assert_eq!(pacing.phase(), Phase::Stopped);

    let mut pacing = PacingState::new(1, 0);
    assert_eq!(pacing.fail(FailedStep::Encode), PipelineError::Encode);
    let mut pacing = PacingState::new(1, 0);
    assert_eq!(pacing.fail(FailedStep::Drain), PipelineError::Encode);
    let mut pacing = PacingState::new(1, 0);
    assert_eq!(pacing.fail(FailedStep::SinkWrite), PipelineError::SinkWrite);
}
