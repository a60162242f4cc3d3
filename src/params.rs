use vstd::prelude::*;

verus! {

/// Normalized parameter values are fixed-point fractions of this unit:
/// `0` stands for 0.0 and `NORM_ONE` for 1.0.
pub const NORM_ONE: u32 = 1_000_000;

/// The automatable parameters of the plugin.
#[derive(Clone, Copy, Debug, PartialEq, Eq, Structural)]
pub enum Parameter {
    Bypass,
    MaxBandwith,
    Complexity,
    PredictedLoss,
    RandomLoss,
    RoundRobinLoss,
    InbandFec,
    Gain,
}

/// Number of parameters.
pub const PARAMETER_COUNT: u32 = 8;

/// Groups that parameters are shown under.
#[derive(Clone, Copy, Debug, PartialEq, Eq, Structural)]
pub enum Unit {
    Root,
    Encoder,
    Decoder,
    Network,
}

/// Audio bandwidth limit of the encoder.
#[derive(Clone, Copy, Debug, PartialEq, Eq, Structural)]
pub enum Bandwidth {
    Narrowband,
    Mediumband,
    Wideband,
    Superwideband,
    Fullband,
    Auto,
}

pub open spec fn parameter_id(p: Parameter) -> u32 {
    match p {
        Parameter::Bypass => 0,
        Parameter::MaxBandwith => 1,
        Parameter::Complexity => 2,
        Parameter::PredictedLoss => 3,
        Parameter::RandomLoss => 4,
        Parameter::RoundRobinLoss => 5,
        Parameter::InbandFec => 6,
        Parameter::Gain => 7,
    }
}

pub open spec fn unit_id(u: Unit) -> i32 {
    match u {
        Unit::Root => 0,
        Unit::Encoder => 1,
        Unit::Decoder => 2,
        Unit::Network => 3,
    }
}

impl Parameter {
    /// The host-facing id of the parameter.
    pub fn id(self) -> (r: u32)
        ensures
            r == parameter_id(self),
            r < PARAMETER_COUNT,
    {
        match self {
            Parameter::Bypass => 0,
            Parameter::MaxBandwith => 1,
            Parameter::Complexity => 2,
            Parameter::PredictedLoss => 3,
            Parameter::RandomLoss => 4,
            Parameter::RoundRobinLoss => 5,
            Parameter::InbandFec => 6,
            Parameter::Gain => 7,
        }
    }

    /// The parameter with host-facing id `id`, if there is one.
    pub fn from_id(id: u32) -> (r: Option<Parameter>)
        ensures
            r.is_some() <==> id < PARAMETER_COUNT,
            r matches Some(p) ==> parameter_id(p) == id,
    {
        match id {
            0 => Some(Parameter::Bypass),
            1 => Some(Parameter::MaxBandwith),
            2 => Some(Parameter::Complexity),
            3 => Some(Parameter::PredictedLoss),
            4 => Some(Parameter::RandomLoss),
            5 => Some(Parameter::RoundRobinLoss),
            6 => Some(Parameter::InbandFec),
            7 => Some(Parameter::Gain),
            _ => None,
        }
    }

    /// The unit that the parameter is grouped under.
    pub fn unit(self) -> (r: Unit)
        ensures
            r == parameter_unit(self),
    {
        match self {
            Parameter::Bypass => Unit::Root,
            Parameter::MaxBandwith => Unit::Encoder,
            Parameter::Complexity => Unit::Encoder,
            Parameter::PredictedLoss => Unit::Encoder,
            Parameter::InbandFec => Unit::Encoder,
            Parameter::Gain => Unit::Decoder,
            Parameter::RandomLoss => Unit::Network,
            Parameter::RoundRobinLoss => Unit::Network,
        }
    }
}

pub open spec fn parameter_unit(p: Parameter) -> Unit {
    match p {
        Parameter::Bypass => Unit::Root,
        Parameter::MaxBandwith | Parameter::Complexity | Parameter::PredictedLoss
        | Parameter::InbandFec => Unit::Encoder,
        Parameter::Gain => Unit::Decoder,
        Parameter::RandomLoss | Parameter::RoundRobinLoss => Unit::Network,
    }
}

/// The id of a parameter determines the parameter.
pub proof fn lemma_parameter_id_injective(a: Parameter, b: Parameter)
    requires
        parameter_id(a) == parameter_id(b),
    ensures
        a == b,
{
}

impl Unit {
    /// The host-facing id of the unit.
    pub fn id(self) -> (r: i32)
        ensures
            r == unit_id(self),
    {
        match self {
            Unit::Root => 0,
            Unit::Encoder => 1,
            Unit::Decoder => 2,
            Unit::Network => 3,
        }
    }

    /// The id of the unit, the id of the unit that holds it (`-1` for the
    /// root) and its name.
    pub fn get_info(self) -> (r: UnitInfo)
        ensures
            r.unit == self,
            r.id == unit_id(self),
            r.parent_unit_id == (if self == Unit::Root {
                -1i32
            } else {
                0i32
            }),
    {
        match self {
            Unit::Root => UnitInfo { unit: self, id: 0, parent_unit_id: -1, name: "Root" },
            Unit::Encoder => UnitInfo { unit: self, id: 1, parent_unit_id: 0, name: "Encoder" },
            Unit::Decoder => UnitInfo { unit: self, id: 2, parent_unit_id: 0, name: "Decoder" },
            Unit::Network => UnitInfo { unit: self, id: 3, parent_unit_id: 0, name: "Network" },
        }
    }

    /// The unit at `index`, in id order.
    pub fn from_index(index: i32) -> (r: Option<Unit>)
        ensures
            r.is_some() <==> 0 <= index < UNIT_COUNT,
            r matches Some(u) ==> unit_id(u) == index,
    {
        match index {
            0 => Some(Unit::Root),
            1 => Some(Unit::Encoder),
            2 => Some(Unit::Decoder),
            3 => Some(Unit::Network),
            _ => None,
        }
    }
}

/// Number of units.
pub const UNIT_COUNT: i32 = 4;

/// What the host learns of a unit.
#[derive(Clone, Copy, Debug)]
pub struct UnitInfo {
    pub unit: Unit,
    pub id: i32,
    pub parent_unit_id: i32,
    pub name: &'static str,
}

// Reading a normalized value as a setting of the codec.

/// `round(v * scale)` for a fixed-point fraction `v`, halves rounded up.
pub open spec fn scaled_round(v: nat, scale: nat) -> nat {
    (v * scale + (NORM_ONE as nat) / 2) / (NORM_ONE as nat)
}

pub open spec fn bool_of(v: u32) -> bool {
    v > NORM_ONE / 2
}

/// Gain in dB: the fraction mapped linearly onto -8 ..= 8, truncated toward zero.
pub open spec fn gain_of(v: u32) -> int {
    let t = 16 * (v as int) - 8 * (NORM_ONE as int);
    if t >= 0 {
        t / (NORM_ONE as int)
    } else {
        -((-t) / (NORM_ONE as int))
    }
}

pub open spec fn bandwidth_of(v: u32) -> Bandwidth {
    let step = scaled_round(v as nat, 4);
    if step == 0 {
        Bandwidth::Narrowband
    } else if step == 1 {
        Bandwidth::Mediumband
    } else if step == 2 {
        Bandwidth::Wideband
    } else if step == 3 {
        Bandwidth::Superwideband
    } else if step == 4 {
        Bandwidth::Fullband
    } else {
        Bandwidth::Auto
    }
}

pub open spec fn bandwidth_value(b: Bandwidth) -> u32 {
    match b {
        Bandwidth::Narrowband => 0,
        Bandwidth::Mediumband => 250_000,
        Bandwidth::Wideband => 500_000,
        Bandwidth::Superwideband => 750_000,
        Bandwidth::Fullband => NORM_ONE,
        Bandwidth::Auto => NORM_ONE,
    }
}

/// On when the value is above one half.
pub fn as_bool(v: u32) -> (r: bool)
    ensures
        r == bool_of(v),
{
    v > NORM_ONE / 2
}

/// The decoder gain in dB, from -8 to 8.
pub fn as_gain(v: u32) -> (r: i32)
    requires
        v <= NORM_ONE,
    ensures
        r as int == gain_of(v),
        -8 <= r <= 8,
{
    let t: i64 = 16 * (v as i64) - 8 * (NORM_ONE as i64);
    if t >= 0 {
        (t / (NORM_ONE as i64)) as i32
    } else {
        -(((-t) / (NORM_ONE as i64)) as i32)
    }
}

/// Encoder complexity, the value scaled to 0 ..= 10 and rounded.
pub fn as_complexity(v: u32) -> (r: u8)
    requires
        v <= NORM_ONE,
    ensures
        r as nat == scaled_round(v as nat, 10),
        r <= 10,
{
    ((v as u64 * 10 + (NORM_ONE / 2) as u64) / NORM_ONE as u64) as u8
}

/// A percentage, the value scaled to 0 ..= 100 and rounded.
pub fn as_percentage(v: u32) -> (r: u8)
    requires
        v <= NORM_ONE,
    ensures
        r as nat == scaled_round(v as nat, 100),
        r <= 100,
{
    ((v as u64 * 100 + (NORM_ONE / 2) as u64) / NORM_ONE as u64) as u8
}

/// The bandwidth limit, the value scaled to five steps and rounded.
pub fn as_bandwidth(v: u32) -> (r: Bandwidth)
    ensures
        r == bandwidth_of(v),
{
    let step: u64 = (v as u64 * 4 + (NORM_ONE / 2) as u64) / NORM_ONE as u64;
    match step {
        0 => Bandwidth::Narrowband,
        1 => Bandwidth::Mediumband,
        2 => Bandwidth::Wideband,
        3 => Bandwidth::Superwideband,
        4 => Bandwidth::Fullband,
        _ => Bandwidth::Auto,
    }
}

// Writing a setting of the codec back as a normalized value.

pub fn from_bool(b: bool) -> (r: u32)
    ensures
        r == (if b { NORM_ONE } else { 0u32 }),
{
    if b {
        NORM_ONE
    } else {
        0
    }
}

pub fn from_gain(g: i32) -> (r: u32)
    requires
        -8 <= g <= 8,
    ensures
        r as int == (g as int + 8) * 62_500,
{
    ((g + 8) as u32) * 62_500
}

pub fn from_complexity(c: u8) -> (r: u32)
    requires
        c <= 10,
    ensures
        r as int == (c as int) * 100_000,
{
    (c as u32) * 100_000
}

pub fn from_percentage(p: u8) -> (r: u32)
    requires
        p <= 100,
    ensures
        r as int == (p as int) * 10_000,
{
    (p as u32) * 10_000
}

pub fn from_bandwidth(b: Bandwidth) -> (r: u32)
    ensures
        r == bandwidth_value(b),
{
    match b {
        Bandwidth::Narrowband => 0,
        Bandwidth::Mediumband => 250_000,
        Bandwidth::Wideband => 500_000,
        Bandwidth::Superwideband => 750_000,
        Bandwidth::Fullband => NORM_ONE,
        Bandwidth::Auto => NORM_ONE,
    }
}

/// Writing a setting as a normalized value and reading it back gives the setting again.
pub proof fn lemma_settings_round_trip(c: u8, p: u8, g: i32, b: Bandwidth, on: bool)
    requires
        c <= 10,
        p <= 100,
        -8 <= g <= 8,
        b != Bandwidth::Auto,
    ensures
        scaled_round((c as nat) * 100_000, 10) == c,
        scaled_round((p as nat) * 10_000, 100) == p,
        gain_of(((g as int + 8) * 62_500) as u32) == g,
        bandwidth_of(bandwidth_value(b)) == b,
        bool_of(if on { NORM_ONE } else { 0u32 }) == on,
{
    assert(scaled_round((c as nat) * 100_000, 10) == c) by (nonlinear_arith)
        requires
            c <= 10,
    ;
    assert(scaled_round((p as nat) * 10_000, 100) == p) by (nonlinear_arith)
        requires
            p <= 100,
    ;
    assert(gain_of(((g as int + 8) * 62_500) as u32) == g) by (nonlinear_arith)
        requires
            -8 <= g <= 8,
    ;
}

/// The live values of all parameters, in the units the codec takes.
#[derive(Clone, Copy, Debug, PartialEq, Eq, Structural)]
pub struct CodecSettings {
    pub bypass: bool,
    pub complexity: u8,
    pub gain: i32,
    pub inband_fec: bool,
    pub max_bandwidth: Bandwidth,
    pub packet_loss_perc: u8,
    /// Chance that a packet is dropped, as a normalized value.
    pub random_loss: u32,
    /// Stored for the host; no loss policy reads it.
    pub round_robin_loss: u32,
}

pub open spec fn clamp_norm(v: u32) -> u32 {
    if v > NORM_ONE {
        NORM_ONE
    } else {
        v
    }
}

impl CodecSettings {
    pub open spec fn wf(self) -> bool {
        &&& self.complexity <= 10
        &&& self.packet_loss_perc <= 100
        &&& -8 <= self.gain <= 8
        &&& self.random_loss <= NORM_ONE
        &&& self.round_robin_loss <= NORM_ONE
    }

    /// The settings after parameter `p` is set to the normalized value `v`
    /// (values above one are read as one).
    pub open spec fn with_value(self, p: Parameter, v: u32) -> CodecSettings {
        let v = clamp_norm(v);
        match p {
            Parameter::Bypass => CodecSettings { bypass: bool_of(v), ..self },
            Parameter::MaxBandwith => CodecSettings { max_bandwidth: bandwidth_of(v), ..self },
            Parameter::Complexity => CodecSettings {
                complexity: scaled_round(v as nat, 10) as u8,
                ..self
            },
            Parameter::PredictedLoss => CodecSettings {
                packet_loss_perc: scaled_round(v as nat, 100) as u8,
                ..self
            },
            Parameter::RandomLoss => CodecSettings { random_loss: v, ..self },
            Parameter::RoundRobinLoss => CodecSettings { round_robin_loss: v, ..self },
            Parameter::InbandFec => CodecSettings { inband_fec: bool_of(v), ..self },
            Parameter::Gain => CodecSettings { gain: gain_of(v) as i32, ..self },
        }
    }

    /// The normalized value that parameter `p` shows in these settings.
    pub open spec fn value_of(self, p: Parameter) -> u32 {
        match p {
            Parameter::Bypass => if self.bypass { NORM_ONE } else { 0 },
            Parameter::MaxBandwith => bandwidth_value(self.max_bandwidth),
            Parameter::Complexity => (self.complexity as int * 100_000) as u32,
            Parameter::PredictedLoss => (self.packet_loss_perc as int * 10_000) as u32,
            Parameter::RandomLoss => self.random_loss,
            Parameter::RoundRobinLoss => self.round_robin_loss,
            Parameter::InbandFec => if self.inband_fec { NORM_ONE } else { 0 },
            Parameter::Gain => ((self.gain as int + 8) * 62_500) as u32,
        }
    }

    /// The settings a fresh session starts with.
    pub open spec fn new_spec() -> CodecSettings {
        CodecSettings {
            bypass: false,
            complexity: 9,
            gain: 0,
            inband_fec: false,
            max_bandwidth: Bandwidth::Fullband,
            packet_loss_perc: 0,
            random_loss: 0,
            round_robin_loss: 0,
        }
    }

    /// The settings a fresh session starts with.
    pub fn new() -> (r: CodecSettings)
        ensures
            r.wf(),
            r == CodecSettings::new_spec(),
            r == (CodecSettings {
                bypass: false,
                complexity: 9,
                gain: 0,
                inband_fec: false,
                max_bandwidth: Bandwidth::Fullband,
                packet_loss_perc: 0,
                random_loss: 0,
                round_robin_loss: 0,
            }),
    {
        CodecSettings {
            bypass: false,
            complexity: 9,
            gain: 0,
            inband_fec: false,
            max_bandwidth: Bandwidth::Fullband,
            packet_loss_perc: 0,
            random_loss: 0,
            round_robin_loss: 0,
        }
    }

    /// Sets parameter `p` to the normalized value `v`.
    pub fn set_value(&mut self, p: Parameter, v: u32)
        requires
            old(self).wf(),
        ensures
            final(self).wf(),
            *final(self) == old(self).with_value(p, v),
    {
        let v = if v > NORM_ONE {
            NORM_ONE
        } else {
            v
        };
        match p {
            Parameter::Bypass => self.bypass = as_bool(v),
            Parameter::MaxBandwith => self.max_bandwidth = as_bandwidth(v),
            Parameter::Complexity => self.complexity = as_complexity(v),
            Parameter::PredictedLoss => self.packet_loss_perc = as_percentage(v),
            Parameter::RandomLoss => self.random_loss = v,
            Parameter::RoundRobinLoss => self.round_robin_loss = v,
            Parameter::InbandFec => self.inband_fec = as_bool(v),
            Parameter::Gain => self.gain = as_gain(v),
        }
    }

    /// The normalized value that parameter `p` shows.
    pub fn get_value(&self, p: Parameter) -> (r: u32)
        requires
            self.wf(),
        ensures
            r == self.value_of(p),
            r <= NORM_ONE,
    {
        match p {
            Parameter::Bypass => from_bool(self.bypass),
            Parameter::MaxBandwith => from_bandwidth(self.max_bandwidth),
            Parameter::Complexity => from_complexity(self.complexity),
            Parameter::PredictedLoss => from_percentage(self.packet_loss_perc),
            Parameter::RandomLoss => self.random_loss,
            Parameter::RoundRobinLoss => self.round_robin_loss,
            Parameter::InbandFec => from_bool(self.inband_fec),
            Parameter::Gain => from_gain(self.gain),
        }
    }
}

/// Reading a parameter and setting it back to what was read leaves the
/// settings unchanged (the automatic bandwidth reads back as full band).
pub proof fn lemma_get_set_identity(s: CodecSettings, p: Parameter)
    requires
        s.wf(),
        s.max_bandwidth != Bandwidth::Auto,
    ensures
        s.with_value(p, s.value_of(p)) == s,
{
    lemma_settings_round_trip(s.complexity, s.packet_loss_perc, s.gain, s.max_bandwidth, s.bypass);
    lemma_settings_round_trip(s.complexity, s.packet_loss_perc, s.gain, s.max_bandwidth, s.inband_fec);
}

/// How a parameter is presented to the host.
#[derive(Clone, Copy, Debug)]
pub struct ParamDescriptor {
    pub param: Parameter,
    pub title: &'static str,
    pub short_title: &'static str,
    pub units: &'static str,
    /// Number of discrete steps; zero for a continuous parameter.
    pub step_count: i32,
    /// Default normalized value.
    pub default_value: u32,
    pub unit: Unit,
    /// Whether the parameter is the plugin's bypass switch.
    pub is_bypass: bool,
}

pub open spec fn step_count_of(p: Parameter) -> i32 {
    match p {
        Parameter::Bypass => 1,
        Parameter::MaxBandwith => 4,
        Parameter::Complexity => 10,
        Parameter::PredictedLoss => 100,
        Parameter::RandomLoss => 0,
        Parameter::RoundRobinLoss => 0,
        Parameter::InbandFec => 1,
        Parameter::Gain => 15,
    }
}

/// Defaults: the settings of a fresh session, as normalized values.
pub open spec fn default_of(p: Parameter) -> u32 {
    CodecSettings::new_spec().value_of(p)
}

impl Parameter {
    /// Title, units, steps, default and unit of the parameter.
    pub fn get_parameter_info(self) -> (r: ParamDescriptor)
        ensures
            r.param == self,
            r.step_count == step_count_of(self),
            r.default_value == default_of(self),
            r.unit == parameter_unit(self),
            r.is_bypass == (self == Parameter::Bypass),
    {
        match self {
            Parameter::Bypass => ParamDescriptor {
                param: self,
                title: "Bypass",
                short_title: "",
                units: "",
                step_count: 1,
                default_value: 0,
                unit: Unit::Root,
                is_bypass: true,
            },
            Parameter::MaxBandwith => ParamDescriptor {
                param: self,
                title: "Max Bandwith",
                short_title: "Band",
                units: "kHz",
                step_count: 4,
                default_value: NORM_ONE,
                unit: Unit::Encoder,
                is_bypass: false,
            },
            Parameter::Complexity => ParamDescriptor {
                param: self,
                title: "Complexity",
                short_title: "Cmpx",
                units: "",
                step_count: 10,
                default_value: 900_000,
                unit: Unit::Encoder,
                is_bypass: false,
            },
            Parameter::PredictedLoss => ParamDescriptor {
                param: self,
                title: "Predicted Loss",
                short_title: "PdLs",
                units: "%",
                step_count: 100,
                default_value: 0,
                unit: Unit::Encoder,
                is_bypass: false,
            },
            Parameter::RandomLoss => ParamDescriptor {
                param: self,
                title: "Random Loss",
                short_title: "RndLs",
                units: "%",
                step_count: 0,
                default_value: 0,
                unit: Unit::Network,
                is_bypass: false,
            },
            Parameter::RoundRobinLoss => ParamDescriptor {
                param: self,
                title: "Round Robin Loss",
                short_title: "RRLs",
                units: "%",
                step_count: 0,
                default_value: 0,
                unit: Unit::Network,
                is_bypass: false,
            },
            Parameter::InbandFec => ParamDescriptor {
                param: self,
                title: "Inband FEC",
                short_title: "FEC",
                units: "",
                step_count: 1,
                default_value: 0,
                unit: Unit::Encoder,
                is_bypass: false,
            },
            Parameter::Gain => ParamDescriptor {
                param: self,
                title: "Gain",
                short_title: "Gain",
                units: "dB",
                step_count: 15,
                default_value: 500_000,
                unit: Unit::Decoder,
                is_bypass: false,
            },
        }
    }
}

} // verus!
