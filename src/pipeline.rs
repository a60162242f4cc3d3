use vstd::prelude::*;
use std::collections::VecDeque;
use crate::automation::{any_due, apply_changes, apply_due, ParamQueue, END_OF_BLOCK};
use crate::latency::{
    compute_latency, host_frames, priming_shortfall, shortfall, to_host_frames, total_latency,
    CODEC_FRAME, MAX_HOST_RATE,
};
use crate::loss::{lost_spec, packet_lost, random_draw};
use crate::params::{CodecSettings, NORM_ONE};

verus! {

/// Interleaved samples in one codec frame (two channels).
pub const FRAME_SAMPLES: usize = 1920;

/// Largest packet the codec may hand back for one frame, in bytes.
pub const MAX_PACKET: usize = 2048;

/// Why a setup, reset or process call failed.
#[derive(Clone, Copy, Debug, PartialEq, Eq, Structural)]
pub enum PipelineError {
    /// The host rate is outside `1 ..= MAX_HOST_RATE`, or the codec refused
    /// its initial settings.
    Configuration,
    /// The codec refused to encode a frame or to take new settings.
    Encode,
    /// The codec refused to decode, or decoded a frame of the wrong length.
    Decode,
    /// A rate bridge failed to reset or to convert.
    Resampler,
}

/// A streaming sample-rate converter for interleaved stereo samples.
pub trait RateBridge<S> {
    /// Feeds `input` and returns whatever output is ready, or `None` on failure.
    fn process(&mut self, input: &Vec<S>) -> Option<Vec<S>>;

    /// Clears the filter phase and any output not yet handed out. `false` on failure.
    fn reset(&mut self) -> bool;
}

/// An audio codec working on whole frames of interleaved stereo samples.
pub trait FrameCodec<S> {
    /// Takes new encoder and decoder settings. `false` when they are refused.
    fn configure(&mut self, settings: &CodecSettings) -> bool;

    /// Encodes one frame into a packet, or `None` on failure.
    fn encode(&mut self, frame: &Vec<S>) -> Option<Vec<u8>>;

    /// Decodes a packet, or conceals a lost one when `packet` is `None`.
    /// `fec` asks for forward error correction. `None` on failure.
    fn decode(&mut self, packet: Option<&Vec<u8>>, fec: bool) -> Option<Vec<S>>;
}

/// The delays that make up the latency reported to the host.
#[derive(Clone, Copy, Debug, PartialEq, Eq, Structural)]
pub struct LatencyState {
    /// Priming delay of the inbound bridge, in codec-rate frames.
    pub inbound_priming: u32,
    /// Priming delay of the outbound bridge, in host-rate frames.
    pub outbound_priming: u64,
    /// One codec frame, in host-rate frames.
    pub frame_latency: u64,
    /// The sum of the three, in host-rate frames.
    pub total: u64,
}

/// What a processor holds, as plain values.
pub struct PipelineView<S> {
    pub host_rate: u32,
    pub latency: LatencyState,
    pub silent: bool,
    /// Rate-converted input waiting for a whole codec frame.
    pub pre: Seq<S>,
    /// Decoded, rate-converted output waiting to be emitted.
    pub post: Seq<S>,
    pub settings: CodecSettings,
    /// The sample value of silence.
    pub zero: S,
}

pub open spec fn latency_consistent(l: LatencyState, host_rate: u32) -> bool {
    &&& l.inbound_priming <= CODEC_FRAME
    &&& l.outbound_priming <= host_frames(CODEC_FRAME as nat, host_rate as nat)
    &&& l.frame_latency == host_frames(CODEC_FRAME as nat, host_rate as nat)
    &&& l.total == total_latency(
        l.inbound_priming as nat,
        l.outbound_priming as nat,
        host_rate as nat,
    )
}

impl<S> PipelineView<S> {
    pub open spec fn inv(self) -> bool {
        &&& 0 < self.host_rate <= MAX_HOST_RATE
        &&& latency_consistent(self.latency, self.host_rate)
        &&& self.pre.len() < FRAME_SAMPLES
        &&& self.silent ==> self.pre.len() == 0
        &&& self.settings.wf()
    }
}

pub open spec fn zeros<S>(z: S, n: nat) -> Seq<S> {
    Seq::new(n, |_i: int| z)
}

/// The first `n` consecutive chunks of width `w` of `s`.
pub open spec fn chunks<S>(s: Seq<S>, w: nat, n: nat) -> Seq<Seq<S>> {
    Seq::new(n, |k: int| s.subrange(k * w, k * w + w))
}

/// The state a reset leaves: empty queues, silent, the latency measured anew.
pub open spec fn reset_done<S>(o: PipelineView<S>, f: PipelineView<S>) -> bool {
    &&& f.host_rate == o.host_rate
    &&& f.settings == o.settings
    &&& f.zero == o.zero
    &&& f.pre.len() == 0
    &&& f.post.len() == 0
    &&& f.silent
    &&& latency_consistent(f.latency, f.host_rate)
}

/// `n` clamped to the `u64` range.
pub open spec fn clamp64(n: nat) -> u64 {
    if n >= 0xffff_ffff_ffff_ffff {
        0xffff_ffff_ffff_ffff
    } else {
        n as u64
    }
}

/// The automation horizon of frame `k` of a block: the host-rate position
/// at which the frame ends, counted from the start of the block, given that
/// `prev` codec-rate frames were queued before the block's own input.
pub open spec fn frame_horizon(k: nat, prev: nat, host_rate: nat) -> u64 {
    clamp64(host_frames(shortfall((k + 1) * (CODEC_FRAME as nat), prev), host_rate))
}

pub open spec fn last_or(s0: CodecSettings, seen: Seq<CodecSettings>) -> CodecSettings {
    if seen.len() == 0 {
        s0
    } else {
        seen.last()
    }
}

/// The settings in effect as each of the first `n` frames of a block is encoded.
pub open spec fn settings_chain(
    s0: CodecSettings,
    changes: Seq<ParamQueue>,
    prev: nat,
    host_rate: nat,
    n: nat,
) -> Seq<CodecSettings>
    decreases n,
{
    if n == 0 {
        Seq::empty()
    } else {
        let c = settings_chain(s0, changes, prev, host_rate, (n - 1) as nat);
        c.push(apply_due(last_or(s0, c), changes, frame_horizon((n - 1) as nat, prev, host_rate)))
    }
}

pub proof fn lemma_chain_len(
    s0: CodecSettings,
    changes: Seq<ParamQueue>,
    prev: nat,
    host_rate: nat,
    n: nat,
)
    ensures
        settings_chain(s0, changes, prev, host_rate, n).len() == n,
    decreases n,
{
    if n > 0 {
        lemma_chain_len(s0, changes, prev, host_rate, (n - 1) as nat);
    }
}

/// `out` holds the first `out_len` samples of `q`, padded with `z` where `q`
/// runs short, and `rest` what is left of `q`.
pub open spec fn emitted<S>(q: Seq<S>, out_len: nat, z: S, out: Seq<S>, rest: Seq<S>) -> bool {
    let c = if out_len <= q.len() {
        out_len
    } else {
        q.len()
    };
    &&& out == q.take(c as int) + zeros(z, (out_len - c) as nat)
    &&& rest == q.skip(c as int)
}

/// One frame of silence in front of the input when the pipeline resumes.
pub open spec fn primer<S>(o: PipelineView<S>) -> Seq<S> {
    if o.silent {
        zeros(o.zero, FRAME_SAMPLES as nat)
    } else {
        Seq::empty()
    }
}

/// Everything queued for the codec in a block with sound: what was left,
/// the primer, and what the inbound bridge handed over.
pub open spec fn active_stream<S>(o: PipelineView<S>, received: Seq<S>) -> Seq<S> {
    o.pre + primer(o) + received
}

/// What one call of `process` did, for a block with silence flag `input_silent`.
pub open spec fn block_done<S>(
    o: PipelineView<S>,
    f: PipelineView<S>,
    input_silent: bool,
    changes: Seq<ParamQueue>,
    out_len: nat,
    b: BlockOutput<S>,
) -> bool {
    &&& f.host_rate == o.host_rate
    &&& f.latency == o.latency
    &&& f.zero == o.zero
    &&& f.silent == input_silent
    &&& b.frames_coded == b.coded@.len()
    &&& b.seen@.len() == b.coded@.len()
    &&& b.fates@.len() == b.coded@.len()
    &&& forall|k: int|
        0 <= k < b.fates@.len() ==> #[trigger] b.fates@[k] == fate_of(b.fates@[k].draw, b.seen@[k])
    &&& b.coded@.len() == 0 ==> b.decoded@.len() == 0
    &&& if input_silent {
        &&& b.received@.len() == 0
        &&& f.pre.len() == 0
        &&& if o.pre.len() == 0 {
            b.coded@.len() == 0
        } else {
            &&& b.coded@ == seq![o.pre + zeros(o.zero, (FRAME_SAMPLES - o.pre.len()) as nat)]
            &&& b.seen@ == seq![o.settings]
        }
        &&& f.settings == apply_due(o.settings, changes, END_OF_BLOCK)
    } else {
        let st = active_stream(o, b.received@);
        let n = st.len() / (FRAME_SAMPLES as nat);
        let prev = (o.pre.len() + primer(o).len()) / 2;
        &&& b.coded@ == chunks(st, FRAME_SAMPLES as nat, n)
        &&& f.pre == st.skip(n * FRAME_SAMPLES)
        &&& b.seen@ == settings_chain(o.settings, changes, prev, o.host_rate as nat, n)
        &&& f.settings == apply_due(last_or(o.settings, b.seen@), changes, END_OF_BLOCK)
    }
    &&& emitted(o.post + b.decoded@, out_len, o.zero, b.samples@, f.post)
    &&& b.silent == ((o.post + b.decoded@).len() == 0)
}

/// How one frame's packet reached the decoder.
#[derive(Clone, Copy, Debug, PartialEq, Eq, Structural)]
pub struct FrameFate {
    /// The uniform draw that decided the packet's fate.
    pub draw: u32,
    /// The packet was dropped: the decoder concealed the frame with no packet.
    pub lost: bool,
    /// Forward error correction was asked of the decoder.
    pub fec: bool,
}

/// The fate of a packet given the draw and the settings in effect: lost by
/// chance `random_loss`; a lost packet is concealed with error correction
/// asked, a received one is decoded with correction as configured.
pub open spec fn fate_of(draw: u32, s: CodecSettings) -> FrameFate {
    let lost = lost_spec(draw, s.random_loss);
    FrameFate { draw, lost, fec: lost || s.inband_fec }
}

/// Accepts what the encoder handed back: a packet of at most `MAX_PACKET`
/// bytes. No packet, or a larger one, is an encode error.
pub fn accept_packet(packet: Option<Vec<u8>>) -> (r: Result<Vec<u8>, PipelineError>)
    ensures
        match packet {
            None => r == Err::<Vec<u8>, _>(PipelineError::Encode),
            Some(p) => if p@.len() > MAX_PACKET {
                r == Err::<Vec<u8>, _>(PipelineError::Encode)
            } else {
                r matches Ok(q) && q@ == p@
            },
        },
{
    match packet {
        None => Err(PipelineError::Encode),
        Some(p) => {
            if p.len() > MAX_PACKET {
                Err(PipelineError::Encode)
            } else {
                Ok(p)
            }
        },
    }
}

/// What to hand the decoder for a packet: whether to pass the packet (only
/// when it was not lost) and whether to ask for error correction (always
/// for a lost packet, else as configured).
pub fn decode_request(lost: bool, inband_fec: bool) -> (r: (bool, bool))
    ensures
        r.0 == !lost,
        r.1 == (lost || inband_fec),
{
    (!lost, lost || inband_fec)
}

/// Accepts what the decoder handed back: a frame of exactly `frame_len`
/// samples. No frame, or one of another length, is a decode error.
pub fn accept_decoded<S>(decoded: Option<Vec<S>>, frame_len: usize) -> (r: Result<Vec<S>, PipelineError>)
    ensures
        match decoded {
            None => r == Err::<Vec<S>, _>(PipelineError::Decode),
            Some(d) => if d@.len() == frame_len {
                r matches Ok(q) && q@ == d@
            } else {
                r == Err::<Vec<S>, _>(PipelineError::Decode)
            },
        },
{
    match decoded {
        None => Err(PipelineError::Decode),
        Some(d) => {
            if d.len() == frame_len {
                Ok(d)
            } else {
                Err(PipelineError::Decode)
            }
        },
    }
}

/// The output of one host block.
pub struct BlockOutput<S> {
    /// Interleaved output samples, as many as were asked for.
    pub samples: Vec<S>,
    /// Set when no decoded audio was available: the output is pure silence.
    pub silent: bool,
    /// Number of codec round trips made.
    pub frames_coded: usize,
    /// What the inbound bridge handed over.
    pub received: Ghost<Seq<S>>,
    /// The frames handed to the codec, in order.
    pub coded: Ghost<Seq<Seq<S>>>,
    /// The settings in effect as each frame was encoded.
    pub seen: Ghost<Seq<CodecSettings>>,
    /// What the outbound bridge handed over.
    pub decoded: Ghost<Seq<S>>,
    /// How each coded frame's packet reached the decoder.
    pub fates: Ghost<Seq<FrameFate>>,
}

/// The host-rate position, from the start of the block, at which a frame
/// ending `end` codec-rate frames into the queue falls, when `prev` frames
/// were queued before the block.
fn horizon_at(end: u64, prev: u64, host_rate: u32) -> (r: u64)
    ensures
        r == clamp64(host_frames(shortfall(end as nat, prev as nat), host_rate as nat)),
{
    let off = priming_shortfall(end, prev);
    let a: u128 = off as u128;
    let b: u128 = host_rate as u128;
    assert(a * b <= 0xffff_ffff_ffff_ffffu128 * 0xffff_ffffu128) by (nonlinear_arith)
        requires
            a <= 0xffff_ffff_ffff_ffffu128,
            b <= 0xffff_ffffu128,
    ;
    let n: u128 = a * b;
    let d: u128 = 48000;
    let q: u128 = if n % d == 0 {
        n / d
    } else {
        n / d + 1
    };
    if q >= 0xffff_ffff_ffff_ffffu128 {
        0xffff_ffff_ffff_ffffu64
    } else {
        q as u64
    }
}

/// The processor state of one plugin instance: a FIFO pipeline from host
/// blocks through a codec round trip and back, with its two rate bridges,
/// the codec, the live settings and the latency measured at reset.
pub struct OpusDsp<S, B, C> {
    host_rate: u32,
    latency: LatencyState,
    silent: bool,
    pre: VecDeque<S>,
    post: VecDeque<S>,
    inbound: B,
    outbound: B,
    codec: C,
    settings: CodecSettings,
    zero: S,
}

impl<S, B, C> View for OpusDsp<S, B, C> {
    type V = PipelineView<S>;

    closed spec fn view(&self) -> PipelineView<S> {
        PipelineView {
            host_rate: self.host_rate,
            latency: self.latency,
            silent: self.silent,
            pre: self.pre@,
            post: self.post@,
            settings: self.settings,
            zero: self.zero,
        }
    }
}

/// Appends every element of `v` to `q`.
fn append_all<S: Copy>(q: &mut VecDeque<S>, v: &Vec<S>)
    ensures
        final(q)@ == old(q)@ + v@,
{
    let mut i: usize = 0;
    while i < v.len()
        invariant
            i <= v@.len(),
            q@ == old(q)@ + v@.take(i as int),
        decreases v@.len() - i,
    {
        q.push_back(v[i]);
        i += 1;
        assert(v@.take(i as int) == v@.take(i as int - 1).push(v@[i as int - 1]));
    }
    assert(v@.take(v@.len() as int) == v@);
}


/// `v` with its pre-codec queue replaced by `q`.
pub open spec fn with_pre<S>(v: PipelineView<S>, q: Seq<S>) -> PipelineView<S> {
    PipelineView { pre: q, ..v }
}

/// `v` with its settings replaced by `t`.
pub open spec fn with_settings<S>(v: PipelineView<S>, t: CodecSettings) -> PipelineView<S> {
    PipelineView { settings: t, ..v }
}

/// `v` with its post-codec queue replaced by `q`.
pub open spec fn with_post<S>(v: PipelineView<S>, q: Seq<S>) -> PipelineView<S> {
    PipelineView { post: q, ..v }
}

/// Removes the first `n` elements of `q` and returns them in order.
fn take_front<S: Copy>(q: &mut VecDeque<S>, n: usize) -> (r: Vec<S>)
    requires
        n <= old(q)@.len(),
    ensures
        r@ == old(q)@.take(n as int),
        final(q)@ == old(q)@.skip(n as int),
{
    let ghost q0 = q@;
    let mut r: Vec<S> = Vec::with_capacity(n);
    let mut i: usize = 0;
    while i < n
        invariant
            i <= n,
            n <= q0.len(),
            r@ == q0.take(i as int),
            q@ == q0.skip(i as int),
        decreases n - i,
    {
        let x = match q.pop_front() {
            Some(x) => x,
            None => {
                assert(false);
                return r;
            },
        };
        r.push(x);
        i += 1;
        assert(r@ =~= q0.take(i as int));
        assert(q@ =~= q0.skip(i as int));
    }
    r
}

/// `n` copies of `z`.
fn zero_vec<S: Copy>(z: S, n: usize) -> (r: Vec<S>)
    ensures
        r@ == zeros(z, n as nat),
{
    let mut r: Vec<S> = Vec::with_capacity(n);
    let mut i: usize = 0;
    while i < n
        invariant
            i <= n,
            r@ == zeros(z, i as nat),
        decreases n - i,
    {
        r.push(z);
        i += 1;
        assert(r@ =~= zeros(z, i as nat));
    }
    r
}

impl<S: Copy, B: RateBridge<S>, C: FrameCodec<S>> OpusDsp<S, B, C> {
    pub open spec fn wf(&self) -> bool {
        self@.inv()
    }

    /// Starts a session at `host_rate` with the default settings, measuring the
    /// bridges' priming delays.
    pub fn new(host_rate: u32, inbound: B, outbound: B, codec: C, zero: S) -> (r: Result<
        Self,
        PipelineError,
    >)
        ensures
            (host_rate == 0 || host_rate > MAX_HOST_RATE) ==> r == Err::<Self, _>(
                PipelineError::Configuration,
            ),
            r matches Ok(p) ==> {
                &&& p.wf()
                &&& p@.host_rate == host_rate
                &&& p@.zero == zero
                &&& p@.settings == CodecSettings::new_spec()
                &&& p@.pre.len() == 0
                &&& p@.post.len() == 0
                &&& p@.silent
            },
            r matches Err(e) ==> e == PipelineError::Configuration || e == PipelineError::Resampler,
    {
        if host_rate == 0 || host_rate > MAX_HOST_RATE {
            return Err(PipelineError::Configuration);
        }
        let frame_latency = to_host_frames(CODEC_FRAME, host_rate);
        let ghost h = host_frames(CODEC_FRAME as nat, host_rate as nat);
        proof {
            assert(h == host_frames(CODEC_FRAME as nat, host_rate as nat));
        }
        let mut p = OpusDsp {
            host_rate,
            latency: LatencyState {
                inbound_priming: 0,
                outbound_priming: 0,
                frame_latency,
                total: compute_latency(0, 0, host_rate),
            },
            silent: true,
            pre: VecDeque::new(),
            post: VecDeque::new(),
            inbound,
            outbound,
            codec,
            settings: CodecSettings::new(),
            zero,
        };
        if !p.codec.configure(&p.settings) {
            return Err(PipelineError::Configuration);
        }
        match p.reset() {
            Ok(()) => Ok(p),
            Err(e) => Err(e),
        }
    }

    /// Delay of the whole pipeline in host-rate frames, as last measured.
    pub fn latency(&self) -> (r: u64)
        requires
            self.wf(),
        ensures
            r == self@.latency.total,
            r == total_latency(
                self@.latency.inbound_priming as nat,
                self@.latency.outbound_priming as nat,
                self@.host_rate as nat,
            ),
    {
        self.latency.total
    }

    /// The delays that make up the latency.
    pub fn latency_state(&self) -> (r: LatencyState)
        ensures
            r == self@.latency,
    {
        self.latency
    }

    /// Whether the pipeline is paused on silence.
    pub fn is_silent(&self) -> (r: bool)
        ensures
            r == self@.silent,
    {
        self.silent
    }

    /// Interleaved samples waiting for a whole codec frame.
    pub fn pending_input(&self) -> (r: usize)
        ensures
            r == self@.pre.len(),
    {
        self.pre.len()
    }

    /// Interleaved decoded samples waiting to be emitted.
    pub fn pending_output(&self) -> (r: usize)
        ensures
            r == self@.post.len(),
    {
        self.post.len()
    }

    /// The live parameter values.
    pub fn settings(&self) -> (r: CodecSettings)
        ensures
            r == self@.settings,
    {
        self.settings
    }

    /// Empties both queues, pauses on silence, and measures the priming delay
    /// of each bridge by pushing one frame of silence through it freshly reset.
    pub fn reset(&mut self) -> (r: Result<(), PipelineError>)
        requires
            0 < old(self)@.host_rate <= MAX_HOST_RATE,
            latency_consistent(old(self)@.latency, old(self)@.host_rate),
            old(self)@.settings.wf(),
        ensures
            final(self).wf(),
            r is Ok ==> reset_done(old(self)@, final(self)@),
            r is Err ==> r == Err::<(), _>(PipelineError::Resampler),
            final(self)@.host_rate == old(self)@.host_rate,
            final(self)@.settings == old(self)@.settings,
            final(self)@.zero == old(self)@.zero,
            final(self)@.pre.len() == 0,
            final(self)@.post.len() == 0,
            final(self)@.silent,
    {
        self.pre.clear();
        self.post.clear();
        self.silent = true;
        if !self.inbound.reset() || !self.outbound.reset() {
            return Err(PipelineError::Resampler);
        }
        let host_frame = to_host_frames(CODEC_FRAME, self.host_rate);
        proof {
            lemma_frame_bound(self.host_rate as nat);
        }
        // Inbound: one codec frame's worth of host-rate silence should give one codec frame.
        let probe_in = zero_vec(self.zero, 2 * host_frame as usize);
        let got_in = match self.inbound.process(&probe_in) {
            Some(v) => v,
            None => return Err(PipelineError::Resampler),
        };
        let inbound_priming = priming_shortfall(CODEC_FRAME as u64, (got_in.len() / 2) as u64);
        // Outbound: one codec frame of silence should give its length at the host rate.
        let probe_out = zero_vec(self.zero, FRAME_SAMPLES);
        let got_out = match self.outbound.process(&probe_out) {
            Some(v) => v,
            None => return Err(PipelineError::Resampler),
        };
        let outbound_priming = priming_shortfall(host_frame, (got_out.len() / 2) as u64);
        if !self.inbound.reset() || !self.outbound.reset() {
            return Err(PipelineError::Resampler);
        }
        let total = compute_latency(inbound_priming as u32, outbound_priming, self.host_rate);
        self.latency = LatencyState {
            inbound_priming: inbound_priming as u32,
            outbound_priming,
            frame_latency: host_frame,
            total,
        };
        Ok(())
    }

    /// Brings every parameter to its last value due before `limit` and hands
    /// the new settings to the codec when any changed.
    pub fn apply_parameter_changes(&mut self, changes: &Vec<ParamQueue>, limit: u64) -> (r: Result<
        (),
        PipelineError,
    >)
        requires
            old(self)@.settings.wf(),
        ensures
            old(self).wf() ==> final(self).wf(),
            final(self)@.settings.wf(),
            final(self)@ == with_settings(old(self)@, apply_due(old(self)@.settings, changes@, limit)),
            r is Err ==> r == Err::<(), _>(PipelineError::Encode) && any_due(changes@, limit),
    {
        let changed = apply_changes(&mut self.settings, changes, limit);
        if changed && !self.codec.configure(&self.settings) {
            return Err(PipelineError::Encode);
        }
        Ok(())
    }

    /// Replaces the live settings, as when a saved state is loaded, and hands
    /// them to the codec.
    pub fn set_settings(&mut self, settings: CodecSettings) -> (r: Result<(), PipelineError>)
        requires
            old(self).wf(),
            settings.wf(),
        ensures
            final(self).wf(),
            final(self)@ == with_settings(old(self)@, settings),
            r is Err ==> r == Err::<(), _>(PipelineError::Encode),
    {
        self.settings = settings;
        if !self.codec.configure(&self.settings) {
            return Err(PipelineError::Encode);
        }
        Ok(())
    }

    /// Encodes `frame`, drops its packet when `draw` says so, and decodes.
    fn round_trip(&mut self, frame: &Vec<S>, draw: u32) -> (r: Result<Vec<S>, PipelineError>)
        ensures
            final(self)@ == old(self)@,
            r matches Ok(d) ==> d@.len() == frame@.len(),
            r matches Err(e) ==> e == PipelineError::Encode || e == PipelineError::Decode,
    {
        let packet = match accept_packet(self.codec.encode(frame)) {
            Ok(p) => p,
            Err(e) => return Err(e),
        };
        let lost = packet_lost(draw, self.settings.random_loss);
        let (send, fec) = decode_request(lost, self.settings.inband_fec);
        let decoded = if send {
            self.codec.decode(Some(&packet), fec)
        } else {
            self.codec.decode(None, fec)
        };
        accept_decoded(decoded, frame.len())
    }

    /// One round trip, its decoded audio passed through the outbound bridge
    /// onto the post-codec queue. Returns what the bridge handed over.
    fn code_frame(&mut self, frame: &Vec<S>, draw: u32) -> (r: Result<Ghost<Seq<S>>, PipelineError>)
        ensures
            final(self)@ == with_post(old(self)@, final(self)@.post),
            r matches Ok(g) ==> final(self)@.post == old(self)@.post + g@,
            r is Err ==> final(self)@.post == old(self)@.post,
            r matches Err(e) ==> e != PipelineError::Configuration,
    {
        let decoded = match self.round_trip(frame, draw) {
            Ok(d) => d,
            Err(e) => return Err(e),
        };
        let out = match self.outbound.process(&decoded) {
            Some(v) => v,
            None => return Err(PipelineError::Resampler),
        };
        append_all(&mut self.post, &out);
        Ok(Ghost(out@))
    }

    /// Writes `out_len` samples from the post-codec queue, padding with
    /// silence where it runs short.
    fn emit(&mut self, out_len: usize) -> (r: Vec<S>)
        ensures
            final(self)@ == with_post(old(self)@, final(self)@.post),
            emitted(old(self)@.post, out_len as nat, old(self)@.zero, r@, final(self)@.post),
    {
        let ghost q = self.post@;
        let c: usize = if out_len <= self.post.len() {
            out_len
        } else {
            self.post.len()
        };
        let mut out = take_front(&mut self.post, c);
        let mut i: usize = c;
        while i < out_len
            invariant
                c <= i <= out_len,
                out@ == q.take(c as int) + zeros(self.zero, (i - c) as nat),
            decreases out_len - i,
        {
            out.push(self.zero);
            i += 1;
            assert(out@ =~= q.take(c as int) + zeros(self.zero, (i - c) as nat));
        }
        out
    }

    /// Runs one host block through the pipeline.
    ///
    /// `input` holds the block's interleaved stereo samples and
    /// `input_silent` the host's report that they are all silent; `changes`
    /// holds the block's automation and `out_len` the number of interleaved
    /// samples to write. When the block is silent, a partial frame left over
    /// is padded and coded once, and nothing else is fed in. When sound
    /// resumes after silence, one frame of silence goes in ahead of it. Each
    /// whole frame is coded after the automation due before its end has been
    /// applied; the rest of the block's automation is applied at the end.
    pub fn process(
        &mut self,
        input: &Vec<S>,
        input_silent: bool,
        changes: &Vec<ParamQueue>,
        out_len: usize,
    ) -> (r: Result<BlockOutput<S>, PipelineError>)
        requires
            old(self).wf(),
        ensures
            final(self).wf(),
            r matches Ok(b) ==> block_done(
                old(self)@,
                final(self)@,
                input_silent,
                changes@,
                out_len as nat,
                b,
            ),
            r matches Ok(b) ==> b.samples@.len() == out_len,
            r matches Err(e) ==> e != PipelineError::Configuration,
            final(self)@.host_rate == old(self)@.host_rate,
            final(self)@.latency == old(self)@.latency,
            final(self)@.zero == old(self)@.zero,
            input_silent && old(self)@.pre.len() == 0 && !any_due(changes@, END_OF_BLOCK) ==> r is Ok,
    {
        let ghost o = self@;
        let was_silent = self.silent;
        let ghost mut received: Seq<S> = Seq::empty();
        let ghost mut coded: Seq<Seq<S>> = Seq::empty();
        let ghost mut seen: Seq<CodecSettings> = Seq::empty();
        let ghost mut fates: Seq<FrameFate> = Seq::empty();
        let ghost mut decoded: Seq<S> = Seq::empty();
        let mut frames_coded: usize = 0;
        if input_silent {
            self.silent = true;
            if self.pre.len() > 0 {
                let n = self.pre.len();
                let mut frame = take_front(&mut self.pre, n);
                assert(frame@ =~= o.pre);
                assert(self.pre@ =~= Seq::<S>::empty());
                let pad = zero_vec(self.zero, FRAME_SAMPLES - n);
                let mut j: usize = 0;
                while j < pad.len()
                    invariant
                        j <= pad@.len(),
                        frame@ == o.pre + pad@.take(j as int),
                    decreases pad@.len() - j,
                {
                    frame.push(pad[j]);
                    j += 1;
                    assert(frame@ =~= o.pre + pad@.take(j as int));
                }
                assert(pad@.take(pad@.len() as int) =~= pad@);
                let draw = random_draw();
                proof {
                    coded = seq![frame@];
                    seen = seq![o.settings];
                    fates = seq![fate_of(draw, o.settings)];
                }
                frames_coded = 1;
                match self.code_frame(&frame, draw) {
                    Ok(g) => {
                        proof {
                            decoded = g@;
                        }
                    },
                    Err(e) => return Err(e),
                }
            }
        } else {
            self.silent = false;
            if was_silent {
                let primer = zero_vec(self.zero, FRAME_SAMPLES);
                append_all(&mut self.pre, &primer);
            }
            assert(self.pre@ =~= o.pre + primer(o));
            let prev: u64 = (self.pre.len() / 2) as u64;
            let inb = match self.inbound.process(input) {
                Some(v) => v,
                None => {
                    self.pre.clear();
                    return Err(PipelineError::Resampler);
                },
            };
            proof {
                received = inb@;
            }
            append_all(&mut self.pre, &inb);
            let ghost st = self.pre@;
            assert(st =~= active_stream(o, received));
            let st_len = self.pre.len();
            let mut i: usize = 0;
            assert(st.skip(0) =~= st);
            assert(chunks(st, FRAME_SAMPLES as nat, 0) =~= Seq::<Seq<S>>::empty());
            while self.pre.len() >= FRAME_SAMPLES
                invariant
                    o.inv(),
                    o == old(self)@,
                    !input_silent,
                    st.len() == st_len,
                    i * FRAME_SAMPLES <= st.len(),
                    self.pre@ == st.skip(i * FRAME_SAMPLES),
                    coded == chunks(st, FRAME_SAMPLES as nat, i as nat),
                    seen == settings_chain(o.settings, changes@, prev as nat, o.host_rate as nat, i as nat),
                    self.settings == last_or(o.settings, seen),
                    self.settings.wf(),
                    self.post@ == o.post + decoded,
                    fates.len() == i,
                    forall|k: int| 0 <= k < i ==> #[trigger] fates[k] == fate_of(fates[k].draw, seen[k]),
                    i == 0 ==> decoded.len() == 0,
                    frames_coded == i,
                    self.host_rate == o.host_rate,
                    self.latency == o.latency,
                    self.zero == o.zero,
                    !self.silent,
                decreases self.pre@.len(),
            {
                assert(i * FRAME_SAMPLES + FRAME_SAMPLES <= st_len);
                let end: u64 = (i as u64 + 1) * (CODEC_FRAME as u64);
                let h = horizon_at(end, prev, self.host_rate);
                assert(h == frame_horizon(i as nat, prev as nat, o.host_rate as nat));
                match self.apply_parameter_changes(changes, h) {
                    Ok(()) => {},
                    Err(e) => {
                        self.pre.clear();
                        return Err(e);
                    },
                }
                let ghost before = self.pre@;
                let frame = take_front(&mut self.pre, FRAME_SAMPLES);
                assert(frame@ =~= st.subrange(i * FRAME_SAMPLES, i * FRAME_SAMPLES + FRAME_SAMPLES));
                assert(self.pre@ =~= st.skip((i + 1) * FRAME_SAMPLES));
                let draw = random_draw();
                proof {
                    lemma_chain_len(o.settings, changes@, prev as nat, o.host_rate as nat, i as nat);
                    let s0 = seen;
                    let f0 = fates;
                    coded = coded.push(frame@);
                    seen = seen.push(self.settings);
                    fates = fates.push(fate_of(draw, self.settings));
                    assert forall|k: int| 0 <= k < i + 1 implies #[trigger] fates[k] == fate_of(
                        fates[k].draw,
                        seen[k],
                    ) by {
                        if k < i {
                            assert(seen[k] == s0[k]);
                            assert(fates[k] == f0[k]);
                            assert(f0[k] == fate_of(f0[k].draw, s0[k]));
                        }
                    }
                }
                assert(coded =~= chunks(st, FRAME_SAMPLES as nat, (i + 1) as nat));
                match self.code_frame(&frame, draw) {
                    Ok(g) => {
                        proof {
                            decoded = decoded + g@;
                        }
                        assert(self.post@ =~= o.post + decoded);
                    },
                    Err(e) => {
                        self.pre.clear();
                        return Err(e);
                    },
                }
                i += 1;
                frames_coded += 1;
            }
            proof {
                lemma_chain_len(o.settings, changes@, prev as nat, o.host_rate as nat, i as nat);
            }
            assert(i as nat == st.len() / (FRAME_SAMPLES as nat)) by (nonlinear_arith)
                requires
                    i * FRAME_SAMPLES <= st.len(),
                    st.len() < i * FRAME_SAMPLES + FRAME_SAMPLES,
            ;
        }
        match self.apply_parameter_changes(changes, END_OF_BLOCK) {
            Ok(()) => {},
            Err(e) => return Err(e),
        }
        let silent = self.post.len() == 0;
        let ghost mid = self@;
        let samples = self.emit(out_len);
        assert(mid.post == o.post + decoded);
        Ok(
            BlockOutput {
                samples,
                silent,
                frames_coded,
                received: Ghost(received),
                coded: Ghost(coded),
                seen: Ghost(seen),
                decoded: Ghost(decoded),
                fates: Ghost(fates),
            },
        )
    }
}

/// One codec frame at any accepted host rate is at most 30720 host frames.
proof fn lemma_frame_bound(host_rate: nat)
    requires
        host_rate <= MAX_HOST_RATE,
    ensures
        host_frames(CODEC_FRAME as nat, host_rate) <= 30720,
{
    let n = 960 * host_rate;
    assert(n <= 960 * 1_536_000);
    assert(n / 48000 + 1 <= 30721) by (nonlinear_arith)
        requires
            n <= 960 * 1_536_000,
    ;
}

/// Resetting twice leaves the pipeline as resetting once does: both queues
/// empty, paused on silence, the same settings, and the same latency
/// whenever the bridges report the same priming delays.
pub proof fn lemma_reset_idempotent<S>(v0: PipelineView<S>, v1: PipelineView<S>, v2: PipelineView<S>)
    requires
        reset_done(v0, v1),
        reset_done(v1, v2),
        v2.latency.inbound_priming == v1.latency.inbound_priming,
        v2.latency.outbound_priming == v1.latency.outbound_priming,
    ensures
        v2 == v1,
        v2.latency.total == v1.latency.total,
{
    assert(v2.pre =~= v1.pre);
    assert(v2.post =~= v1.post);
}

/// The latency reported is the inbound priming converted to the host rate,
/// plus the outbound priming, plus one codec frame converted to the host
/// rate; two sessions at the same host rate whose bridges prime alike
/// report the same latency.
pub proof fn lemma_latency_formula<S>(a: PipelineView<S>, b: PipelineView<S>)
    requires
        a.inv(),
        b.inv(),
        a.host_rate == b.host_rate,
        a.latency.inbound_priming == b.latency.inbound_priming,
        a.latency.outbound_priming == b.latency.outbound_priming,
    ensures
        a.latency.total == host_frames(a.latency.inbound_priming as nat, a.host_rate as nat)
            + a.latency.outbound_priming + host_frames(CODEC_FRAME as nat, a.host_rate as nat),
        a.latency == b.latency,
{
}

/// After sound, a silent block codes at most the one padded frame left
/// over; every further silent block codes nothing and receives nothing, and
/// its output is pure silence exactly when no decoded audio is left over,
/// which is so whenever the first silent block asked for all that was queued.
pub proof fn lemma_silence_efficiency<S>(
    v0: PipelineView<S>,
    v1: PipelineView<S>,
    v2: PipelineView<S>,
    c1: Seq<ParamQueue>,
    c2: Seq<ParamQueue>,
    n1: nat,
    n2: nat,
    b1: BlockOutput<S>,
    b2: BlockOutput<S>,
)
    requires
        v0.inv(),
        block_done(v0, v1, true, c1, n1, b1),
        block_done(v1, v2, true, c2, n2, b2),
    ensures
        b1.frames_coded <= 1,
        b2.frames_coded == 0,
        b2.decoded@.len() == 0,
        b2.silent == (v1.post.len() == 0),
        b2.silent ==> b2.samples@ == zeros(v0.zero, n2),
        n1 >= (v0.post + b1.decoded@).len() ==> b2.silent,
{
    let q1 = v0.post + b1.decoded@;
    if n1 >= q1.len() {
        assert(v1.post =~= q1.skip(q1.len() as int));
    }
    if b2.silent {
        assert(v1.post + b2.decoded@ =~= Seq::<S>::empty());
        assert(b2.samples@ =~= zeros(v0.zero, n2));
    }
}

/// When sound resumes after silence, the first frame handed to the codec is
/// a whole frame of silence; the block's own audio follows it.
pub proof fn lemma_resume_primes<S>(
    v0: PipelineView<S>,
    v1: PipelineView<S>,
    c: Seq<ParamQueue>,
    n: nat,
    b: BlockOutput<S>,
)
    requires
        v0.inv(),
        v0.silent,
        block_done(v0, v1, false, c, n, b),
    ensures
        b.frames_coded >= 1,
        b.coded@[0] == zeros(v0.zero, FRAME_SAMPLES as nat),
{
    let st = active_stream(v0, b.received@);
    assert(st.len() >= FRAME_SAMPLES);
    assert(st.len() / (FRAME_SAMPLES as nat) >= 1) by (nonlinear_arith)
        requires
            st.len() >= FRAME_SAMPLES,
    ;
    assert(b.coded@[0] =~= zeros(v0.zero, FRAME_SAMPLES as nat));
}

/// With a loss chance of zero every packet of a block reaches the decoder,
/// with error correction asked only as configured; with a loss chance of one
/// every packet is dropped and the decoder conceals it with correction asked.
pub proof fn lemma_loss_extremes<S>(
    o: PipelineView<S>,
    f: PipelineView<S>,
    input_silent: bool,
    changes: Seq<ParamQueue>,
    out_len: nat,
    b: BlockOutput<S>,
    k: int,
)
    requires
        block_done(o, f, input_silent, changes, out_len, b),
        0 <= k < b.coded@.len(),
    ensures
        b.seen@[k].random_loss == 0 ==> !b.fates@[k].lost && b.fates@[k].fec == b.seen@[k].inband_fec,
        b.seen@[k].random_loss >= NORM_ONE ==> b.fates@[k].lost && b.fates@[k].fec,
{
    assert(b.fates@[k] == fate_of(b.fates@[k].draw, b.seen@[k]));
}

} // verus!
