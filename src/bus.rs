use vstd::prelude::*;

verus! {

/// Media type id of audio buses.
pub const MEDIA_AUDIO: i32 = 0;

/// Media type id of event buses.
pub const MEDIA_EVENT: i32 = 1;

/// Direction id of input buses.
pub const DIR_INPUT: i32 = 0;

/// Direction id of output buses.
pub const DIR_OUTPUT: i32 = 1;

/// Symbolic sample size of 32-bit float samples.
pub const SAMPLE_32: i32 = 0;

/// Symbolic sample size of 64-bit float samples.
pub const SAMPLE_64: i32 = 1;

/// Speaker arrangement of a stereo bus: left and right.
pub const STEREO: u64 = 3;

/// How a host query is answered.
#[derive(Clone, Copy, Debug, PartialEq, Eq, Structural)]
pub enum Answer {
    Yes,
    No,
    InvalidArgument,
}

/// Number of speakers set among the lowest `k` bits of `arr`.
pub open spec fn speakers_below(arr: u64, k: nat) -> nat
    decreases k,
{
    if k == 0 {
        0
    } else {
        speakers_below(arr, (k - 1) as nat) + (if (arr >> ((k - 1) as u64)) & 1 == 1 {
            1nat
        } else {
            0nat
        })
    }
}

/// Number of speakers, one per set bit, in a speaker arrangement.
pub open spec fn speaker_count(arr: u64) -> nat {
    speakers_below(arr, 64)
}

proof fn lemma_speakers_below_bound(arr: u64, k: nat)
    ensures
        speakers_below(arr, k) <= k,
    decreases k,
{
    if k > 0 {
        lemma_speakers_below_bound(arr, (k - 1) as nat);
    }
}

/// Channel count of a speaker arrangement: the number of set bits.
pub fn channel_count(arr: u64) -> (r: i32)
    ensures
        r as nat == speaker_count(arr),
        0 <= r <= 64,
{
    let mut count: i32 = 0;
    let mut i: u64 = 0;
    while i < 64
        invariant
            i <= 64,
            count as nat == speakers_below(arr, i as nat),
            0 <= count <= i,
        decreases 64 - i,
    {
        proof {
            lemma_speakers_below_bound(arr, i as nat);
        }
        if (arr >> i) & 1 == 1 {
            count += 1;
        }
        i += 1;
    }
    count
}

/// Whether samples of the symbolic size `size` can be processed: only
/// 32-bit floats are.
pub fn can_process_sample_size(size: i32) -> (r: Answer)
    ensures
        r == (if size == SAMPLE_32 {
            Answer::Yes
        } else if size == SAMPLE_64 {
            Answer::No
        } else {
            Answer::InvalidArgument
        }),
{
    if size == SAMPLE_32 {
        Answer::Yes
    } else if size == SAMPLE_64 {
        Answer::No
    } else {
        Answer::InvalidArgument
    }
}

/// Whether a processing setup is accepted: a known process mode (realtime,
/// prefetch or offline) and 32-bit samples.
pub fn check_setup(process_mode: i32, sample_size: i32) -> (r: Answer)
    ensures
        !(0 <= process_mode <= 2) ==> r == Answer::No,
        0 <= process_mode <= 2 ==> r == (if sample_size == SAMPLE_32 {
            Answer::Yes
        } else if sample_size == SAMPLE_64 {
            Answer::No
        } else {
            Answer::InvalidArgument
        }),
{
    if process_mode < 0 || process_mode > 2 {
        return Answer::No;
    }
    can_process_sample_size(sample_size)
}

/// Silence flags of a stereo bus with both channels silent.
pub const BOTH_SILENT: u64 = 3;

/// Whether the host flagged both channels of a stereo bus as silent.
pub fn block_is_silent(flags: u64) -> (r: bool)
    ensures
        r == (flags & 3 == 3),
{
    flags & 3 == 3
}

/// The silence flags to report for an output bus.
pub fn output_silence_flags(silent: bool) -> (r: u64)
    ensures
        r == (if silent {
            BOTH_SILENT
        } else {
            0u64
        }),
{
    if silent {
        BOTH_SILENT
    } else {
        0
    }
}

/// What a process call carries.
#[derive(Clone, Copy, Debug, PartialEq, Eq, Structural)]
pub enum BlockShape {
    /// No buses: only parameter changes are applied.
    ParamsOnly,
    /// A main input and a main output bus of at least two channels each.
    Stereo,
    /// Anything else, which is refused.
    Invalid,
}

/// Classifies a process call by its bus counts and the channel counts of
/// the first input and output bus.
pub fn block_shape(num_inputs: i32, in_channels: i32, num_outputs: i32, out_channels: i32) -> (r:
    BlockShape)
    ensures
        r == (if num_inputs == 0 && num_outputs == 0 {
            BlockShape::ParamsOnly
        } else if num_inputs >= 1 && in_channels >= 2 && num_outputs >= 1 && out_channels >= 2 {
            BlockShape::Stereo
        } else {
            BlockShape::Invalid
        }),
{
    if num_inputs == 0 && num_outputs == 0 {
        BlockShape::ParamsOnly
    } else if num_inputs >= 1 && in_channels >= 2 && num_outputs >= 1 && out_channels >= 2 {
        BlockShape::Stereo
    } else {
        BlockShape::Invalid
    }
}

/// One audio bus of the processor.
#[derive(Clone, Debug)]
pub struct AudioBus {
    pub name: String,
    pub bus_type: i32,
    pub flags: i32,
    pub active: bool,
    pub speaker_arr: u64,
}

/// What the host learns of a bus.
#[derive(Clone, Debug)]
pub struct BusInfo {
    pub media_type: i32,
    pub direction: i32,
    pub channel_count: i32,
    pub name: String,
    pub bus_type: i32,
    pub flags: u32,
}

/// The audio buses of the processor, by direction.
pub struct BusSet {
    pub inputs: Vec<AudioBus>,
    pub outputs: Vec<AudioBus>,
}

/// A new main bus: named `name`, inactive, with arrangement `arr`.
pub open spec fn fresh_bus(b: AudioBus, name: Seq<char>, arr: u64) -> bool {
    &&& b.name@ == name
    &&& b.bus_type == 0
    &&& b.flags == 1
    &&& !b.active
    &&& b.speaker_arr == arr
}

/// `b` switched on or off.
pub open spec fn with_active(b: AudioBus, state: bool) -> AudioBus {
    AudioBus { active: state, ..b }
}

impl BusSet {
    pub open spec fn side(&self, dir: i32) -> Seq<AudioBus> {
        if dir == DIR_INPUT {
            self.inputs@
        } else {
            self.outputs@
        }
    }

    pub fn new() -> (r: BusSet)
        ensures
            r.inputs@.len() == 0,
            r.outputs@.len() == 0,
    {
        BusSet { inputs: Vec::new(), outputs: Vec::new() }
    }

    /// Adds an inactive main input bus.
    pub fn add_audio_input(&mut self, name: &str, arr: u64)
        ensures
            final(self).outputs@ == old(self).outputs@,
            final(self).inputs@.len() == old(self).inputs@.len() + 1,
            final(self).inputs@.take(old(self).inputs@.len() as int) == old(self).inputs@,
            fresh_bus(final(self).inputs@.last(), name@, arr),
    {
        let bus = AudioBus {
            name: name.to_owned(),
            bus_type: 0,
            flags: 1,
            active: false,
            speaker_arr: arr,
        };
        self.inputs.push(bus);
        assert(self.inputs@.take(old(self).inputs@.len() as int) =~= old(self).inputs@);
    }

    /// Adds an inactive main output bus.
    pub fn add_audio_output(&mut self, name: &str, arr: u64)
        ensures
            final(self).inputs@ == old(self).inputs@,
            final(self).outputs@.len() == old(self).outputs@.len() + 1,
            final(self).outputs@.take(old(self).outputs@.len() as int) == old(self).outputs@,
            fresh_bus(final(self).outputs@.last(), name@, arr),
    {
        let bus = AudioBus {
            name: name.to_owned(),
            bus_type: 0,
            flags: 1,
            active: false,
            speaker_arr: arr,
        };
        self.outputs.push(bus);
        assert(self.outputs@.take(old(self).outputs@.len() as int) =~= old(self).outputs@);
    }

    /// Removes every bus.
    pub fn clear(&mut self)
        ensures
            final(self).inputs@.len() == 0,
            final(self).outputs@.len() == 0,
    {
        self.inputs.clear();
        self.outputs.clear();
    }

    /// Number of buses of a media type and direction; only audio buses exist.
    pub fn bus_count(&self, media_type: i32, dir: i32) -> (r: i32)
        requires
            self.inputs@.len() <= i32::MAX,
            self.outputs@.len() <= i32::MAX,
        ensures
            r == (if media_type == MEDIA_AUDIO && dir == DIR_INPUT {
                self.inputs@.len() as i32
            } else if media_type == MEDIA_AUDIO && dir == DIR_OUTPUT {
                self.outputs@.len() as i32
            } else {
                0i32
            }),
    {
        if media_type == MEDIA_AUDIO && dir == DIR_INPUT {
            self.inputs.len() as i32
        } else if media_type == MEDIA_AUDIO && dir == DIR_OUTPUT {
            self.outputs.len() as i32
        } else {
            0
        }
    }

    /// Describes bus `index` of a media type and direction. Event buses give
    /// `No`; an unknown media type, direction or index gives `InvalidArgument`.
    pub fn bus_info(&self, media_type: i32, dir: i32, index: i32) -> (r: Result<BusInfo, Answer>)
        ensures
            media_type == MEDIA_EVENT ==> r matches Err(Answer::No),
            (media_type != MEDIA_AUDIO && media_type != MEDIA_EVENT) ==> r matches Err(
                Answer::InvalidArgument,
            ),
            media_type == MEDIA_AUDIO ==> match r {
                Ok(info) => {
                    &&& (dir == DIR_INPUT || dir == DIR_OUTPUT)
                    &&& 0 <= index < self.side(dir).len()
                    &&& info.media_type == media_type
                    &&& info.direction == dir
                    &&& info.channel_count as nat == speaker_count(self.side(dir)[index as int].speaker_arr)
                    &&& info.name@ == self.side(dir)[index as int].name@
                    &&& info.bus_type == self.side(dir)[index as int].bus_type
                    &&& info.flags == self.side(dir)[index as int].flags as u32
                },
                Err(e) => {
                    &&& e == Answer::InvalidArgument
                    &&& !((dir == DIR_INPUT || dir == DIR_OUTPUT) && 0 <= index < self.side(dir).len())
                },
            },
    {
        if media_type == MEDIA_EVENT {
            return Err(Answer::No);
        }
        if media_type != MEDIA_AUDIO || (dir != DIR_INPUT && dir != DIR_OUTPUT) || index < 0 {
            return Err(Answer::InvalidArgument);
        }
        let side = if dir == DIR_INPUT {
            &self.inputs
        } else {
            &self.outputs
        };
        if index as usize >= side.len() {
            return Err(Answer::InvalidArgument);
        }
        let bus = &side[index as usize];
        Ok(
            BusInfo {
                media_type,
                direction: dir,
                channel_count: channel_count(bus.speaker_arr),
                name: bus.name.clone(),
                bus_type: bus.bus_type,
                flags: bus.flags as u32,
            },
        )
    }

    /// Switches bus `index` of a media type and direction on or off.
    pub fn activate_bus(&mut self, media_type: i32, dir: i32, index: i32, state: bool) -> (r: Answer)
        ensures
            media_type == MEDIA_EVENT ==> r == Answer::No,
            (media_type != MEDIA_AUDIO && media_type != MEDIA_EVENT) ==> r == Answer::InvalidArgument,
            media_type == MEDIA_AUDIO && !((dir == DIR_INPUT || dir == DIR_OUTPUT) && 0 <= index
                < old(self).side(dir).len()) ==> r == Answer::InvalidArgument,
            r == Answer::Yes <==> (media_type == MEDIA_AUDIO && (dir == DIR_INPUT || dir == DIR_OUTPUT)
                && 0 <= index < old(self).side(dir).len()),
            r == Answer::Yes ==> final(self).side(dir) == old(self).side(dir).update(
                index as int,
                with_active(old(self).side(dir)[index as int], state),
            ),
            r == Answer::Yes && dir == DIR_INPUT ==> final(self).outputs@ == old(self).outputs@,
            r == Answer::Yes && dir == DIR_OUTPUT ==> final(self).inputs@ == old(self).inputs@,
            r != Answer::Yes ==> final(self).inputs@ == old(self).inputs@ && final(self).outputs@
                == old(self).outputs@,
    {
        if media_type == MEDIA_EVENT {
            return Answer::No;
        }
        if media_type != MEDIA_AUDIO || (dir != DIR_INPUT && dir != DIR_OUTPUT) || index < 0 {
            return Answer::InvalidArgument;
        }
        let i = index as usize;
        if dir == DIR_INPUT {
            if i >= self.inputs.len() {
                return Answer::InvalidArgument;
            }
            let mut bus = self.inputs.remove(i);
            bus.active = state;
            self.inputs.insert(i, bus);
            assert(self.inputs@ =~= old(self).inputs@.update(i as int, with_active(old(self).inputs@[i as int], state)));
        } else {
            if i >= self.outputs.len() {
                return Answer::InvalidArgument;
            }
            let mut bus = self.outputs.remove(i);
            bus.active = state;
            self.outputs.insert(i, bus);
            assert(self.outputs@ =~= old(self).outputs@.update(i as int, with_active(old(self).outputs@[i as int], state)));
        }
        Answer::Yes
    }

    /// Speaker arrangement of bus `index`: direction `0` means inputs, any
    /// other means outputs. `None` when there is no such bus.
    pub fn bus_arrangement(&self, dir: i32, index: i32) -> (r: Option<u64>)
        ensures
            ({
                let side = if dir == 0 {
                    self.inputs@
                } else {
                    self.outputs@
                };
                match r {
                    Some(a) => 0 <= index < side.len() && a == side[index as int].speaker_arr,
                    None => !(0 <= index < side.len()),
                }
            }),
    {
        let side = if dir == 0 {
            &self.inputs
        } else {
            &self.outputs
        };
        if index < 0 || index as usize >= side.len() {
            None
        } else {
            Some(side[index as usize].speaker_arr)
        }
    }
}

} // verus!
