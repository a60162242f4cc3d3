use opus_parvulum::automation::{Breakpoint, ParamQueue};
use opus_parvulum::params::{CodecSettings, Parameter};
use opus_parvulum::params::NORM_ONE;
use opus_parvulum::pipeline::{
    accept_decoded, accept_packet, decode_request, FrameCodec, OpusDsp, PipelineError, RateBridge,
    FRAME_SAMPLES, MAX_PACKET,
};
use std::cell::RefCell;
use std::collections::VecDeque;
use std::rc::Rc;

/// A bridge that converts nothing but always holds back its last `delay`
/// stereo frames, as a filter that needs look-ahead does.
struct DelayBridge {
    delay: usize,
    held: VecDeque<i32>,
    fail: bool,
}

impl DelayBridge {
    fn new(delay: usize) -> Self {
        DelayBridge { delay, held: VecDeque::new(), fail: false }
    }
}

impl RateBridge<i32> for DelayBridge {
    fn process(&mut self, input: &Vec<i32>) -> Option<Vec<i32>> {
        if self.fail {
            return None;
        }
        self.held.extend(input.iter().copied());
        let mut out = Vec::new();
        while self.held.len() > 2 * self.delay {
            out.push(self.held.pop_front().unwrap());
        }
        Some(out)
    }

    fn reset(&mut self) -> bool {
        self.held.clear();
        !self.fail
    }
}

#[derive(Default)]
struct CodecLog {
    encoded: Vec<Vec<i32>>,
    complexity_at_encode: Vec<u8>,
    configured: Vec<CodecSettings>,
    decodes: Vec<(bool, bool)>,
}

/// A lossless stand-in for the codec that records what it is given.
struct RecordingCodec {
    log: Rc<RefCell<CodecLog>>,
    last: Vec<i32>,
    complexity: u8,
    fail_encode: bool,
    short_decode: bool,
}

impl RecordingCodec {
    fn new(log: Rc<RefCell<CodecLog>>) -> Self {
        RecordingCodec { log, last: Vec::new(), complexity: 0, fail_encode: false, short_decode: false }
    }
}

impl FrameCodec<i32> for RecordingCodec {
    fn configure(&mut self, settings: &CodecSettings) -> bool {
        self.complexity = settings.complexity;
        self.log.borrow_mut().configured.push(*settings);
        true
    }

    fn encode(&mut self, frame: &Vec<i32>) -> Option<Vec<u8>> {
        if self.fail_encode {
            return None;
        }
        let mut log = self.log.borrow_mut();
        log.encoded.push(frame.clone());
        log.complexity_at_encode.push(self.complexity);
        self.last = frame.clone();
        Some(vec![1, 2, 3])
    }

    fn decode(&mut self, packet: Option<&Vec<u8>>, fec: bool) -> Option<Vec<i32>> {
        self.log.borrow_mut().decodes.push((packet.is_some(), fec));
        let mut out = match packet {
            Some(_) => self.last.clone(),
            None => vec![0; self.last.len()],
        };
        if self.short_decode {
            out.pop();
        }
        Some(out)
    }
}

type Proc = OpusDsp<i32, DelayBridge, RecordingCodec>;

fn make(rate: u32, d_in: usize, d_out: usize) -> (Proc, Rc<RefCell<CodecLog>>) {
    let log = Rc::new(RefCell::new(CodecLog::default()));
    let p = OpusDsp::new(
        rate,
        DelayBridge::new(d_in),
        DelayBridge::new(d_out),
        RecordingCodec::new(log.clone()),
        0,
    )
    .ok()
    .unwrap();
    (p, log)
}

fn tone(frames: usize, start: i32) -> Vec<i32> {
    let mut v = Vec::new();
    for i in 0..frames {
        v.push(start + i as i32);
        v.push(-(start + i as i32));
    }
    v
}

#[test]
fn latency_at_codec_rate_is_one_frame() {
    let (p, _) = make(48000, 0, 0);
    assert_eq!(p.latency(), 960);
}

#[test]
fn latency_adds_both_primings() {
    let (p, _) = make(48000, 30, 20);
    let l = p.latency_state();
    assert_eq!(l.inbound_priming, 30);
    assert_eq!(l.outbound_priming, 20);
    assert_eq!(l.frame_latency, 960);
    assert_eq!(p.latency(), 30 + 20 + 960);
}

#[test]
fn latency_at_44100_follows_the_formula() {
    // Bridges that convert nothing: the inbound probe of 882 frames yields
    // 882 of the expected 960, so 78 codec frames of priming (72 at 44.1 kHz).
    let (p, _) = make(44100, 0, 0);
    let l = p.latency_state();
    assert_eq!(l.inbound_priming, 78);
    assert_eq!(l.outbound_priming, 0);
    assert_eq!(l.frame_latency, 882);
    assert_eq!(p.latency(), 72 + 0 + 882);
}

#[test]
fn latency_is_the_same_across_setups() {
    let (a, _) = make(44100, 10, 5);
    let (b, _) = make(44100, 10, 5);
    assert_eq!(a.latency(), b.latency());
}

#[test]
fn reset_twice_matches_reset_once() {
    let (mut p, _) = make(48000, 12, 7);
    let input = tone(700, 1);
    p.process(&input, false, &Vec::new(), input.len()).ok().unwrap();
    assert!(p.pending_input() > 0);
    p.reset().ok().unwrap();
    let once = (p.latency(), p.pending_input(), p.pending_output(), p.is_silent());
    p.reset().ok().unwrap();
    let twice = (p.latency(), p.pending_input(), p.pending_output(), p.is_silent());
    assert_eq!(once, twice);
    assert_eq!(once.1, 0);
    assert_eq!(once.2, 0);
}

#[test]
fn setup_rejects_a_zero_rate() {
    let log = Rc::new(RefCell::new(CodecLog::default()));
    let r = OpusDsp::new(
        0,
        DelayBridge::new(0),
        DelayBridge::new(0),
        RecordingCodec::new(log),
        0,
    );
    assert!(matches!(r, Err(PipelineError::Configuration)));
}

#[test]
fn setup_reports_a_failing_bridge() {
    let log = Rc::new(RefCell::new(CodecLog::default()));
    let mut bad = DelayBridge::new(0);
    bad.fail = true;
    let r = OpusDsp::new(48000, bad, DelayBridge::new(0), RecordingCodec::new(log), 0);
    assert!(matches!(r, Err(PipelineError::Resampler)));
}

#[test]
fn encode_failure_is_reported_and_queues_stay_consistent() {
    let log = Rc::new(RefCell::new(CodecLog::default()));
    let mut codec = RecordingCodec::new(log);
    codec.fail_encode = true;
    let mut p = OpusDsp::new(48000, DelayBridge::new(0), DelayBridge::new(0), codec, 0)
        .ok()
        .unwrap();
    let input = tone(480, 1);
    let r = p.process(&input, false, &Vec::new(), input.len());
    assert!(matches!(r, Err(PipelineError::Encode)));
    assert!(p.pending_input() < FRAME_SAMPLES);
}

#[test]
fn short_decode_is_a_decode_error() {
    let log = Rc::new(RefCell::new(CodecLog::default()));
    let mut codec = RecordingCodec::new(log);
    codec.short_decode = true;
    let mut p = OpusDsp::new(48000, DelayBridge::new(0), DelayBridge::new(0), codec, 0)
        .ok()
        .unwrap();
    let input = tone(480, 1);
    let r = p.process(&input, false, &Vec::new(), input.len());
    assert!(matches!(r, Err(PipelineError::Decode)));
}

#[test]
fn output_lags_input_by_the_latency() {
    let (mut p, _) = make(48000, 0, 0);
    let mut out = Vec::new();
    for b in 0..6 {
        let input = tone(480, 1 + 480 * b);
        let r = p.process(&input, false, &Vec::new(), input.len()).ok().unwrap();
        assert_eq!(r.samples.len(), input.len());
        out.extend(r.samples);
    }
    // One frame of silence primes the pipeline, then the input comes back in order.
    let lag = 2 * p.latency() as usize;
    assert!(out[..lag].iter().all(|&s| s == 0));
    assert_eq!(out[lag..lag + 4].to_vec(), vec![1, -1, 2, -2]);
}

#[test]
fn silent_blocks_stop_codec_work_after_one_flush() {
    let (mut p, log) = make(48000, 0, 0);
    for b in 0..3 {
        let input = tone(500, 1 + 500 * b);
        p.process(&input, false, &Vec::new(), input.len()).ok().unwrap();
    }
    assert!(p.pending_input() > 0);
    let silence = vec![0; 1000];
    let first = p.process(&silence, true, &Vec::new(), silence.len()).ok().unwrap();
    assert_eq!(first.frames_coded, 1);
    assert_eq!(p.pending_input(), 0);
    let encodes = log.borrow().encoded.len();
    let mut flags = Vec::new();
    for _ in 0..8 {
        let r = p.process(&silence, true, &Vec::new(), silence.len()).ok().unwrap();
        assert_eq!(r.frames_coded, 0);
        flags.push(r.silent);
    }
    assert_eq!(log.borrow().encoded.len(), encodes);
    // Left-over decoded audio drains, then every block is flagged silent.
    let first_silent = flags.iter().position(|&f| f).unwrap();
    assert!(flags[first_silent..].iter().all(|&f| f));
    assert_eq!(p.pending_output(), 0);
}

#[test]
fn resume_after_silence_codes_a_frame_of_silence_first() {
    let (mut p, log) = make(48000, 0, 0);
    let silence = vec![0; 960];
    p.process(&silence, true, &Vec::new(), silence.len()).ok().unwrap();
    let input = tone(500, 5);
    let r = p.process(&input, false, &Vec::new(), input.len()).ok().unwrap();
    assert_eq!(r.frames_coded, 1);
    let input2 = tone(1000, 1005);
    p.process(&input2, false, &Vec::new(), input2.len()).ok().unwrap();
    let log = log.borrow();
    assert!(log.encoded[0].iter().all(|&s| s == 0));
    assert_eq!(log.encoded[1][0], 5);
    assert_eq!(log.encoded[1][1], -5);
}

#[test]
fn automation_applies_breakpoints_before_the_frame_boundary() {
    let (mut p, log) = make(48000, 0, 0);
    // The primer frame plus 480 frames: one frame is coded and 480 frames stay
    // queued, so the next block's frame boundary falls at its sample 480.
    let first = tone(480, 1);
    p.process(&first, false, &Vec::new(), first.len()).ok().unwrap();
    assert_eq!(p.pending_input(), 960);
    let changes = vec![ParamQueue {
        param: Parameter::Complexity,
        points: vec![
            Breakpoint { offset: 0, value: 200_000 },
            Breakpoint { offset: 500, value: 800_000 },
        ],
    }];
    let block = tone(960, 481);
    let r = p.process(&block, false, &changes, block.len()).ok().unwrap();
    assert_eq!(r.frames_coded, 1);
    assert_eq!(*log.borrow().complexity_at_encode.last().unwrap(), 2);
    assert_eq!(p.settings().complexity, 8);
}

#[test]
fn automation_waits_when_no_boundary_falls_in_the_block() {
    let (mut p, log) = make(48000, 0, 0);
    let first = tone(100, 1);
    p.process(&first, false, &Vec::new(), first.len()).ok().unwrap();
    let encodes = log.borrow().encoded.len();
    let changes = vec![ParamQueue {
        param: Parameter::PredictedLoss,
        points: vec![Breakpoint { offset: 10, value: 250_000 }],
    }];
    let block = tone(100, 101);
    let r = p.process(&block, false, &changes, block.len()).ok().unwrap();
    assert_eq!(r.frames_coded, 0);
    assert_eq!(log.borrow().encoded.len(), encodes);
    assert_eq!(p.settings().packet_loss_perc, 25);
}

#[test]
fn steady_tone_round_trip_keeps_the_sample_count() {
    let (mut p, _) = make(48000, 3, 4);
    let mut total_in = 0;
    let mut total_out = 0;
    let mut nonzero = 0;
    for b in 0..10 {
        let input = tone(512, 1 + 512 * b);
        let r = p.process(&input, false, &Vec::new(), input.len()).ok().unwrap();
        total_in += input.len();
        total_out += r.samples.len();
        nonzero += r.samples.iter().filter(|&&s| s != 0).count();
    }
    assert_eq!(total_in, total_out);
    assert!(nonzero > 0);
}

#[test]
fn output_pads_with_silence_on_underrun() {
    let (mut p, _) = make(48000, 0, 0);
    let input = tone(100, 1);
    let r = p.process(&input, false, &Vec::new(), input.len()).ok().unwrap();
    // The primer frame came out, but nothing of the input yet.
    assert!(!r.silent);
    assert_eq!(r.samples.len(), 200);
    assert!(r.samples.iter().all(|&s| s == 0));
    assert_eq!(p.pending_output(), 2 * 960 - 200);
}

#[test]
fn packets_are_checked_for_size() {
    assert!(matches!(accept_packet(None), Err(PipelineError::Encode)));
    assert!(matches!(accept_packet(Some(vec![0u8; MAX_PACKET + 1])), Err(PipelineError::Encode)));
    assert_eq!(accept_packet(Some(vec![7u8; 3])).ok().unwrap(), vec![7u8; 3]);
    assert_eq!(accept_packet(Some(vec![1u8; MAX_PACKET])).ok().unwrap().len(), MAX_PACKET);
}

#[test]
fn decoded_frames_are_checked_for_length() {
    assert!(matches!(accept_decoded::<i32>(None, 4), Err(PipelineError::Decode)));
    assert!(matches!(accept_decoded(Some(vec![1, 2, 3]), 4), Err(PipelineError::Decode)));
    assert_eq!(accept_decoded(Some(vec![1, 2, 3, 4]), 4).ok().unwrap(), vec![1, 2, 3, 4]);
}

#[test]
fn decode_request_follows_the_packet_fate() {
    assert_eq!(decode_request(false, false), (true, false));
    assert_eq!(decode_request(false, true), (true, true));
    assert_eq!(decode_request(true, false), (false, true));
}

#[test]
fn no_loss_chance_sends_every_packet() {
    let (mut p, log) = make(48000, 0, 0);
    let mut s = p.settings();
    s.inband_fec = true;
    p.set_settings(s).ok().unwrap();
    let input = tone(2000, 1);
    let r = p.process(&input, false, &Vec::new(), input.len()).ok().unwrap();
    assert_eq!(r.frames_coded, 3);
    assert!(log.borrow().decodes.iter().all(|&d| d == (true, true)));
}

#[test]
fn full_loss_chance_conceals_every_packet() {
    let (mut p, log) = make(48000, 0, 0);
    let changes = vec![ParamQueue {
        param: Parameter::RandomLoss,
        points: vec![Breakpoint { offset: 0, value: NORM_ONE }],
    }];
    let first = tone(100, 1);
    p.process(&first, false, &changes, first.len()).ok().unwrap();
    assert_eq!(p.settings().random_loss, NORM_ONE);
    log.borrow_mut().decodes.clear();
    let input = tone(2000, 101);
    let r = p.process(&input, false, &Vec::new(), input.len()).ok().unwrap();
    assert_eq!(r.frames_coded, 2);
    assert_eq!(log.borrow().decodes, vec![(false, true), (false, true)]);
}

#[test]
fn silent_block_with_nothing_queued_succeeds() {
    let (mut p, log) = make(48000, 0, 0);
    let silence = vec![0; 256];
    let r = p.process(&silence, true, &Vec::new(), silence.len()).ok().unwrap();
    assert!(r.silent);
    assert_eq!(r.frames_coded, 0);
    assert!(r.samples.iter().all(|&s| s == 0));
    assert!(log.borrow().encoded.is_empty());
}
