use vstd::prelude::*;

verus! {

/// Sample rate of the codec, in frames per second.
pub const CODEC_RATE: u32 = 48000;

/// Highest host sample rate a session accepts.
pub const MAX_HOST_RATE: u32 = 1_536_000;

/// Length of one codec frame in stereo frames (20 ms at the codec rate).
pub const CODEC_FRAME: u32 = 960;

/// `codec_frames` codec-rate frames expressed at `host_rate`, rounded up.
pub open spec fn host_frames(codec_frames: nat, host_rate: nat) -> nat {
    let n = codec_frames * host_rate;
    if n % (CODEC_RATE as nat) == 0 {
        n / (CODEC_RATE as nat)
    } else {
        n / (CODEC_RATE as nat) + 1
    }
}

/// Frames of delay that a bridge adds: what was expected minus what came out, never below zero.
pub open spec fn shortfall(expected: nat, produced: nat) -> nat {
    if produced >= expected {
        0
    } else {
        (expected - produced) as nat
    }
}

/// Total delay reported to the host, in host-rate frames: the inbound
/// bridge's priming (measured at the codec rate), the outbound bridge's
/// priming (measured at the host rate) and one whole codec frame.
pub open spec fn total_latency(inbound_priming: nat, outbound_priming: nat, host_rate: nat) -> nat {
    host_frames(inbound_priming, host_rate) + outbound_priming + host_frames(
        CODEC_FRAME as nat,
        host_rate,
    )
}

/// Converts a count of codec-rate frames to host-rate frames, rounding up.
pub fn to_host_frames(codec_frames: u32, host_rate: u32) -> (r: u64)
    ensures
        r as nat == host_frames(codec_frames as nat, host_rate as nat),
{
    let a: u64 = codec_frames as u64;
    let b: u64 = host_rate as u64;
    assert(a * b <= 0xffff_ffffu64 * 0xffff_ffffu64) by (nonlinear_arith)
        requires
            a <= 0xffff_ffffu64,
            b <= 0xffff_ffffu64,
    ;
    let n: u64 = a * b;
    let d: u64 = CODEC_RATE as u64;
    if n % d == 0 {
        n / d
    } else {
        n / d + 1
    }
}

/// Frames of priming delay: `expected` minus `produced`, saturating at zero.
pub fn priming_shortfall(expected: u64, produced: u64) -> (r: u64)
    ensures
        r as nat == shortfall(expected as nat, produced as nat),
{
    expected.saturating_sub(produced)
}

/// Total delay, in host-rate frames, given both bridges' priming.
pub fn compute_latency(inbound_priming: u32, outbound_priming: u64, host_rate: u32) -> (r: u64)
    requires
        outbound_priming <= 0x4_0000_0000_0000,
    ensures
        r as nat == total_latency(
            inbound_priming as nat,
            outbound_priming as nat,
            host_rate as nat,
        ),
{
    let a = to_host_frames(inbound_priming, host_rate);
    let c = to_host_frames(CODEC_FRAME, host_rate);
    assert(a <= 0x4_0000_0000_0000u64 && c <= 0x4_0000_0000_0000u64) by {
        lemma_host_frames_bound(inbound_priming as nat, host_rate as nat);
        lemma_host_frames_bound(CODEC_FRAME as nat, host_rate as nat);
    }
    a + outbound_priming + c
}

/// Any `u32` count of codec frames at any `u32` host rate stays below 2^50 host frames.
pub proof fn lemma_host_frames_bound(codec_frames: nat, host_rate: nat)
    requires
        codec_frames <= 0xffff_ffff,
        host_rate <= 0xffff_ffff,
    ensures
        host_frames(codec_frames, host_rate) <= 0x4_0000_0000_0000,
{
    let n = codec_frames * host_rate;
    assert(n <= 0xffff_ffff * 0xffff_ffff) by (nonlinear_arith)
        requires
            codec_frames <= 0xffff_ffff,
            host_rate <= 0xffff_ffff,
            n == codec_frames * host_rate,
    ;
    assert(n / 48000 + 1 <= 0x4_0000_0000_0000) by (nonlinear_arith)
        requires
            n <= 0xffff_ffff * 0xffff_ffff,
    ;
}

} // verus!
