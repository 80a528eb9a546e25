//! Parameters: their identifiers, the bank of their values, and the ranges
//! through which a value reaches the signal graph.
//!
//! A parameter value and the bounds of a range are signed 16.16 fixed point:
//! the integer `v` stands for `v / 2^16`. The product of two such numbers is
//! an exact 32.32 fixed-point number, so mapping a value through a range
//! loses nothing.

use vstd::prelude::*;

verus! {

/// The number one in 16.16 fixed point.
pub const UNIT: i32 = 0x1_0000;

/// What a lookup of an unknown parameter returns.
pub const UNKNOWN_VALUE: i32 = 0;

/// The identifier of a parameter.
#[derive(Clone, Copy, Debug, PartialEq, Eq, Structural)]
pub enum Parameter {
    Freq,
    Modulation,
    Amplitude,
}

impl Parameter {
    /// The index under which a host addresses this parameter.
    pub open spec fn index_of(self) -> int {
        match self {
            Parameter::Freq => 0,
            Parameter::Modulation => 1,
            Parameter::Amplitude => 2,
        }
    }

    /// The parameter that a host addresses by `index`, if there is one.
    pub open spec fn of_index(index: int) -> Option<Parameter> {
        if index == 0 {
            Some(Parameter::Freq)
        } else if index == 1 {
            Some(Parameter::Modulation)
        } else if index == 2 {
            Some(Parameter::Amplitude)
        } else {
            None
        }
    }

    /// The display name of this parameter.
    pub open spec fn name_of(self) -> Seq<char> {
        match self {
            Parameter::Freq => "frequency"@,
            Parameter::Modulation => "modulation"@,
            Parameter::Amplitude => "amplitude"@,
        }
    }

    /// Every parameter is found again under its own index.
    pub proof fn lemma_index_round_trip(self)
        ensures
            Parameter::of_index(self.index_of()) == Some(self),
    {
    }

    /// An index that names a parameter is the index of that parameter.
    pub proof fn lemma_of_index_sound(index: int)
        ensures
            match Parameter::of_index(index) {
                Some(parameter) => parameter.index_of() == index,
                None => index < 0 || index > 2,
            },
    {
    }

    /// Looks a parameter up by its index.
    pub fn from_i32(index: i32) -> (parameter: Option<Parameter>)
        ensures
            parameter == Parameter::of_index(index as int),
    {
        if index == 0 {
            Some(Parameter::Freq)
        } else if index == 1 {
            Some(Parameter::Modulation)
        } else if index == 2 {
            Some(Parameter::Amplitude)
        } else {
            None
        }
    }

    /// The index of this parameter.
    pub fn index(self) -> (index: i32)
        ensures
            index == self.index_of(),
    {
        match self {
            Parameter::Freq => 0,
            Parameter::Modulation => 1,
            Parameter::Amplitude => 2,
        }
    }

    /// The display name of this parameter.
    pub fn name(self) -> (name: &'static str)
        ensures
            name@ == self.name_of(),
    {
        match self {
            Parameter::Freq => "frequency",
            Parameter::Modulation => "modulation",
            Parameter::Amplitude => "amplitude",
        }
    }

    /// The display name of this parameter, as an owned string.
    pub fn to_string(self) -> (name: String)
        ensures
            name@ == self.name_of(),
    {
        self.name().to_owned()
    }
}

/// The bank of normalized parameter values. A host writes any value at any
/// time; nothing is validated or clamped here.
#[derive(Clone, Copy, Debug, PartialEq, Eq, Structural)]
pub struct Parameters {
    pub freq: i32,
    pub modulation: i32,
    pub amplitude: i32,
}

impl Parameters {
    /// The value held for `parameter`.
    pub open spec fn value_of(self, parameter: Parameter) -> i32 {
        match parameter {
            Parameter::Freq => self.freq,
            Parameter::Modulation => self.modulation,
            Parameter::Amplitude => self.amplitude,
        }
    }

    /// The bank with `value` held for `parameter` and every other value kept.
    pub open spec fn with_value(self, parameter: Parameter, value: i32) -> Parameters {
        match parameter {
            Parameter::Freq => Parameters { freq: value, ..self },
            Parameter::Modulation => Parameters { modulation: value, ..self },
            Parameter::Amplitude => Parameters { amplitude: value, ..self },
        }
    }

    /// What a read at `index` returns: the value of the parameter there, or
    /// zero where the index names none.
    pub open spec fn read(self, index: int) -> i32 {
        match Parameter::of_index(index) {
            Some(parameter) => self.value_of(parameter),
            None => UNKNOWN_VALUE,
        }
    }

    /// The bank after a write of `value` at `index`: unchanged where the
    /// index names no parameter.
    pub open spec fn written(self, index: int, value: i32) -> Parameters {
        match Parameter::of_index(index) {
            Some(parameter) => self.with_value(parameter, value),
            None => self,
        }
    }

    /// The name shown for `index`.
    pub open spec fn name_at(index: int) -> Seq<char> {
        match Parameter::of_index(index) {
            Some(parameter) => parameter.name_of(),
            None => "unknown"@,
        }
    }

    /// A read after a write at the same index of a parameter returns what was
    /// written, and a read at any other index returns what it did before.
    pub proof fn lemma_read_after_write(self, written: int, value: i32, read: int)
        ensures
            self.written(written, value).read(read) == if read == written
                && Parameter::of_index(written).is_some() {
                value
            } else {
                self.read(read)
            },
    {
    }

    /// Reads the value at `index`.
    pub fn get_parameter(&self, index: i32) -> (value: i32)
        ensures
            value == self.read(index as int),
    {
        match Parameter::from_i32(index) {
            Some(Parameter::Freq) => self.freq,
            Some(Parameter::Modulation) => self.modulation,
            Some(Parameter::Amplitude) => self.amplitude,
            None => UNKNOWN_VALUE,
        }
    }

    /// Writes `value` at `index`.
    pub fn set_parameter(&mut self, index: i32, value: i32)
        ensures
            *final(self) == old(self).written(index as int, value),
    {
        match Parameter::from_i32(index) {
            Some(Parameter::Freq) => {
                self.freq = value;
            },
            Some(Parameter::Modulation) => {
                self.modulation = value;
            },
            Some(Parameter::Amplitude) => {
                self.amplitude = value;
            },
            None => {},
        }
    }

    /// The name shown for `index`.
    pub fn get_parameter_name(&self, index: i32) -> (name: String)
        ensures
            name@ == Parameters::name_at(index as int),
    {
        match Parameter::from_i32(index) {
            Some(parameter) => parameter.to_string(),
            None => "unknown".to_owned(),
        }
    }
}

impl Default for Parameters {
    /// A frequency of 0.44, full modulation and half amplitude.
    fn default() -> (bank: Parameters)
        ensures
            bank.freq == 28836,
            bank.modulation == UNIT,
            bank.amplitude == 0x8000,
    {
        Parameters { freq: 28836, modulation: UNIT, amplitude: 0x8000 }
    }
}

/// A closed range `[min, max]` of parameter values.
#[derive(Clone, Copy, Debug, PartialEq, Eq, Structural)]
pub struct ParamRange {
    pub min: i32,
    pub max: i32,
}

impl ParamRange {
    /// A range is well formed when its bounds are in order and its width
    /// is itself a parameter value.
    pub open spec fn wf(self) -> bool {
        self.min <= self.max && self.max - self.min <= i32::MAX
    }

    /// The image of `raw` under the affine map that takes zero to `min` and
    /// one to `max`, in 32.32 fixed point: `raw * (max - min) + min`.
    pub open spec fn mapped(self, raw: int) -> int {
        raw * (self.max - self.min) + self.min * UNIT
    }

    /// The value whose image is `mapped`, rounded down where there is none.
    pub open spec fn unmapped(self, mapped: int) -> int {
        (mapped - self.min * UNIT) / (self.max - self.min)
    }

    /// Tells whether the range is well formed.
    pub fn is_valid(&self) -> (valid: bool)
        ensures
            valid == self.wf(),
    {
        self.min <= self.max && (self.max as i64) - (self.min as i64) <= 0x7fff_ffff
    }

    /// The range from `min` to `max`, where that is well formed.
    pub fn new(min: i32, max: i32) -> (range: Option<ParamRange>)
        ensures
            range == if (ParamRange { min, max }).wf() {
                Some(ParamRange { min, max })
            } else {
                None::<ParamRange>
            },
    {
        if min <= max && (max as i64) - (min as i64) <= 0x7fff_ffff {
            Some(ParamRange { min, max })
        } else {
            None
        }
    }

    /// Maps a normalized value into the range. The map is affine on every
    /// value: one outside `[0, 1]` is extended along the same line, not
    /// clamped.
    pub fn map(&self, raw: i32) -> (mapped: i64)
        requires
            self.wf(),
        ensures
            mapped == self.mapped(raw as int),
    {
        let width: i64 = (self.max as i64) - (self.min as i64);
        assert(-0x4000_0000_0000_0000 <= raw * width <= 0x4000_0000_0000_0000)
            by (nonlinear_arith)
            requires
                -0x8000_0000 <= raw <= 0x7fff_ffff,
                0 <= width <= 0x7fff_ffff,
        ;
        assert(-0x8000_0000_0000 <= self.min * 0x1_0000 <= 0x8000_0000_0000)
            by (nonlinear_arith)
            requires
                -0x8000_0000 <= self.min <= 0x7fff_ffff,
        ;
        (raw as i64) * width + (self.min as i64) * 0x1_0000
    }

    /// The map sends zero to the lower bound and one to the upper bound.
    pub proof fn lemma_mapped_ends(self)
        ensures
            self.mapped(0) == self.min * UNIT,
            self.mapped(UNIT as int) == self.max * UNIT,
    {
        assert(0 * (self.max - self.min) == 0) by (nonlinear_arith);
        assert(UNIT * (self.max - self.min) + self.min * UNIT == self.max * UNIT)
            by (nonlinear_arith);
    }

    /// The map is affine: equal steps of the value give equal steps of its
    /// image, each the width of the range times the step.
    pub proof fn lemma_mapped_affine(self, raw: int, step: int)
        ensures
            self.mapped(raw + step) - self.mapped(raw) == step * (self.max - self.min),
    {
        assert((raw + step) * (self.max - self.min) == raw * (self.max - self.min) + step * (
        self.max - self.min)) by (nonlinear_arith);
    }

    /// The map can be undone: on a range that is wider than a point, the
    /// value is found again from its image.
    pub proof fn lemma_mapped_reversible(self, raw: int)
        requires
            self.min < self.max,
        ensures
            self.unmapped(self.mapped(raw)) == raw,
    {
        let width = self.max - self.min;
        vstd::arithmetic::div_mod::lemma_div_multiples_vanish(raw, width);
        assert(raw * width == width * raw) by (nonlinear_arith);
    }
}

/// A declared parameter: its value in plain units and the range that the
/// value lives in.
#[derive(Clone, Copy, Debug, PartialEq, Eq, Structural)]
pub struct LinearParam {
    pub value: i32,
    pub range: ParamRange,
}

/// The parameters that the synthesizer declares to a host.
#[derive(Clone, Copy, Debug, PartialEq, Eq, Structural)]
pub struct SynthyParams {
    pub modulation: LinearParam,
    pub freq: LinearParam,
    pub amplitude: LinearParam,
}

impl SynthyParams {
    /// Every declared range is well formed.
    pub open spec fn wf(self) -> bool {
        &&& self.modulation.range.wf()
        &&& self.freq.range.wf()
        &&& self.amplitude.range.wf()
    }

    /// What a synthesizer declares before a host changes anything: no
    /// modulation in `[0, 10]`, a frequency of 440 in `[0, 1000]` and half
    /// amplitude in `[0, 1]`.
    pub open spec fn default_declared() -> SynthyParams {
        SynthyParams {
            modulation: LinearParam { value: 0, range: ParamRange { min: 0, max: 0xa_0000 } },
            freq: LinearParam {
                value: 0x1b8_0000,
                range: ParamRange { min: 0, max: 0x3e8_0000 },
            },
            amplitude: LinearParam {
                value: 0x8000,
                range: ParamRange { min: 0, max: 0x1_0000 },
            },
        }
    }

    /// The declaration of `parameter`.
    pub open spec fn declared(self, parameter: Parameter) -> LinearParam {
        match parameter {
            Parameter::Freq => self.freq,
            Parameter::Modulation => self.modulation,
            Parameter::Amplitude => self.amplitude,
        }
    }

    /// The declaration of `parameter`.
    pub fn get(&self, parameter: Parameter) -> (declared: LinearParam)
        ensures
            declared == self.declared(parameter),
    {
        match parameter {
            Parameter::Freq => self.freq,
            Parameter::Modulation => self.modulation,
            Parameter::Amplitude => self.amplitude,
        }
    }
}

impl Default for SynthyParams {
    fn default() -> (declared: SynthyParams)
        ensures
            declared == SynthyParams::default_declared(),
            declared.wf(),
    {
        SynthyParams {
            modulation: LinearParam { value: 0, range: ParamRange { min: 0, max: 0xa_0000 } },
            freq: LinearParam {
                value: 0x1b8_0000,
                range: ParamRange { min: 0, max: 0x3e8_0000 },
            },
            amplitude: LinearParam {
                value: 0x8000,
                range: ParamRange { min: 0, max: 0x1_0000 },
            },
        }
    }
}

} // verus!
