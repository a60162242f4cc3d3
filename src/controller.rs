use vstd::prelude::*;
use crate::bus::Answer;
use crate::params::{
    default_of, parameter_id, parameter_unit, step_count_of, unit_id, CodecSettings, ParamDescriptor,
    Parameter, Unit, UnitInfo, PARAMETER_COUNT, UNIT_COUNT,
};

verus! {

/// The parameters in id order.
pub open spec fn param_at(i: int) -> Parameter {
    if i == 0 {
        Parameter::Bypass
    } else if i == 1 {
        Parameter::MaxBandwith
    } else if i == 2 {
        Parameter::Complexity
    } else if i == 3 {
        Parameter::PredictedLoss
    } else if i == 4 {
        Parameter::RandomLoss
    } else if i == 5 {
        Parameter::RoundRobinLoss
    } else if i == 6 {
        Parameter::InbandFec
    } else {
        Parameter::Gain
    }
}

pub proof fn lemma_param_at_id(i: int)
    requires
        0 <= i < PARAMETER_COUNT,
    ensures
        parameter_id(param_at(i)) == i,
{
}

/// The parameter with id `i`, for `i` below the parameter count.
fn param_of_index(i: usize) -> (r: Parameter)
    requires
        i < PARAMETER_COUNT,
    ensures
        r == param_at(i as int),
{
    match Parameter::from_id(i as u32) {
        Some(p) => p,
        None => Parameter::Gain,
    }
}

/// The normalized value of every parameter, in id order.
pub open spec fn values_of(s: CodecSettings) -> Seq<u32> {
    Seq::new(PARAMETER_COUNT as nat, |i: int| s.value_of(param_at(i)))
}

/// `s` after each parameter, in id order, takes the value in `values` at its id.
pub open spec fn load_prefix(s: CodecSettings, values: Seq<u32>, n: nat) -> CodecSettings
    decreases n,
{
    if n == 0 {
        s
    } else {
        load_prefix(s, values, (n - 1) as nat).with_value(param_at(n - 1), values[n - 1])
    }
}

/// The values to save: every parameter's normalized value, in id order.
pub fn save_values(s: &CodecSettings) -> (r: Vec<u32>)
    requires
        s.wf(),
    ensures
        r@ == values_of(*s),
{
    let mut r: Vec<u32> = Vec::with_capacity(PARAMETER_COUNT as usize);
    let mut i: usize = 0;
    while i < PARAMETER_COUNT as usize
        invariant
            i <= PARAMETER_COUNT,
            s.wf(),
            r@ == values_of(*s).take(i as int),
        decreases PARAMETER_COUNT - i,
    {
        r.push(s.get_value(param_of_index(i)));
        i += 1;
        assert(r@ =~= values_of(*s).take(i as int));
    }
    assert(r@ =~= values_of(*s));
    r
}

/// Sets every parameter, in id order, to the saved value at its id.
pub fn load_values(s: &mut CodecSettings, values: &Vec<u32>)
    requires
        old(s).wf(),
        values@.len() == PARAMETER_COUNT,
    ensures
        final(s).wf(),
        *final(s) == load_prefix(*old(s), values@, PARAMETER_COUNT as nat),
{
    let mut i: usize = 0;
    while i < PARAMETER_COUNT as usize
        invariant
            i <= PARAMETER_COUNT,
            values@.len() == PARAMETER_COUNT,
            s.wf(),
            *s == load_prefix(*old(s), values@, i as nat),
        decreases PARAMETER_COUNT - i,
    {
        s.set_value(param_of_index(i), values[i]);
        i += 1;
    }
}

/// Saving the settings and loading what was saved gives the same settings
/// (an automatic bandwidth comes back as full band).
pub proof fn lemma_save_load_round_trip(s: CodecSettings, t: CodecSettings)
    requires
        s.wf(),
        s.max_bandwidth != crate::params::Bandwidth::Auto,
    ensures
        load_prefix(t, values_of(s), PARAMETER_COUNT as nat) == s,
{
    crate::params::lemma_settings_round_trip(s.complexity, s.packet_loss_perc, s.gain, s.max_bandwidth, s.bypass);
    crate::params::lemma_settings_round_trip(s.complexity, s.packet_loss_perc, s.gain, s.max_bandwidth, s.inband_fec);
    reveal_with_fuel(load_prefix, 9);
}

/// The controller's copy of every parameter's normalized value.
pub struct OpusController {
    values: Vec<u32>,
}

impl View for OpusController {
    type V = Seq<u32>;

    closed spec fn view(&self) -> Seq<u32> {
        self.values@
    }
}

impl OpusController {
    pub open spec fn wf(&self) -> bool {
        self@.len() == PARAMETER_COUNT
    }

    /// Every parameter at zero.
    pub fn new() -> (r: OpusController)
        ensures
            r.wf(),
            forall|i: int| 0 <= i < PARAMETER_COUNT ==> r@[i] == 0,
    {
        let mut values: Vec<u32> = Vec::with_capacity(PARAMETER_COUNT as usize);
        let mut i: usize = 0;
        while i < PARAMETER_COUNT as usize
            invariant
                i <= PARAMETER_COUNT,
                values@.len() == i,
                forall|j: int| 0 <= j < i ==> values@[j] == 0,
            decreases PARAMETER_COUNT - i,
        {
            values.push(0);
            i += 1;
        }
        OpusController { values }
    }

    /// Number of parameters.
    pub fn get_parameter_count(&self) -> (r: i32)
        ensures
            r == PARAMETER_COUNT,
    {
        PARAMETER_COUNT as i32
    }

    /// How the parameter with id `id` is presented; an unknown id is an
    /// invalid argument.
    pub fn get_parameter_info(&self, id: i32) -> (r: Result<ParamDescriptor, Answer>)
        ensures
            r is Ok <==> 0 <= id < PARAMETER_COUNT,
            r matches Ok(d) ==> {
                &&& parameter_id(d.param) == id
                &&& d.step_count == step_count_of(d.param)
                &&& d.default_value == default_of(d.param)
                &&& d.unit == parameter_unit(d.param)
            },
            r matches Err(e) ==> e == Answer::InvalidArgument,
    {
        if id < 0 {
            return Err(Answer::InvalidArgument);
        }
        match Parameter::from_id(id as u32) {
            Some(p) => Ok(p.get_parameter_info()),
            None => Err(Answer::InvalidArgument),
        }
    }

    /// Number of units.
    pub fn get_unit_count(&self) -> (r: i32)
        ensures
            r == UNIT_COUNT,
    {
        UNIT_COUNT
    }

    /// The unit at `index`, if there is one.
    pub fn get_unit_info(&self, index: i32) -> (r: Option<UnitInfo>)
        ensures
            r.is_some() <==> 0 <= index < UNIT_COUNT,
            r matches Some(info) ==> info.id == index && unit_id(info.unit) == index,
    {
        match Unit::from_index(index) {
            Some(u) => Some(u.get_info()),
            None => None,
        }
    }

    /// The value of the parameter with id `id`; zero for an unknown id.
    pub fn get_param_normalized(&self, id: u32) -> (r: u32)
        requires
            self.wf(),
        ensures
            r == (if id < PARAMETER_COUNT {
                self@[id as int]
            } else {
                0u32
            }),
    {
        if id < PARAMETER_COUNT {
            self.values[id as usize]
        } else {
            0
        }
    }

    /// Sets the parameter with id `id`; an unknown id is an invalid argument.
    pub fn set_param_normalized(&mut self, id: u32, value: u32) -> (r: Answer)
        requires
            old(self).wf(),
        ensures
            final(self).wf(),
            r == (if id < PARAMETER_COUNT {
                Answer::Yes
            } else {
                Answer::InvalidArgument
            }),
            id < PARAMETER_COUNT ==> final(self)@ == old(self)@.update(id as int, value),
            id >= PARAMETER_COUNT ==> final(self)@ == old(self)@,
    {
        if id < PARAMETER_COUNT {
            self.values.set(id as usize, value);
            Answer::Yes
        } else {
            Answer::InvalidArgument
        }
    }

    /// Takes the values the processor saved, in id order; a parameter past
    /// the end of `saved` reads as zero.
    pub fn set_component_state(&mut self, saved: &Vec<u32>)
        requires
            old(self).wf(),
        ensures
            final(self).wf(),
            forall|i: int|
                0 <= i < PARAMETER_COUNT ==> final(self)@[i] == (if i < saved@.len() {
                    saved@[i]
                } else {
                    0u32
                }),
    {
        let mut i: usize = 0;
        while i < PARAMETER_COUNT as usize
            invariant
                i <= PARAMETER_COUNT,
                self.wf(),
                forall|j: int|
                    0 <= j < i ==> self@[j] == (if j < saved@.len() {
                        saved@[j]
                    } else {
                        0u32
                    }),
            decreases PARAMETER_COUNT - i,
        {
            let v = if i < saved.len() {
                saved[i]
            } else {
                0
            };
            self.values.set(i, v);
            i += 1;
        }
    }
}

} // verus!
