//! Signals: waves of logic levels, and clock generators.

use vstd::prelude::*;

use crate::color::Color;
use crate::layout::{MAX_PERIOD, MAX_PHASE, MAX_WAVE_LEVELS, MILLI};

verus! {

/// One period's logic state. `Up` and `Down` are transition symbols that
/// occupy one period slot each; they are not steady states. `Idle` is not
/// supported by the translator and is surfaced as a typed error.
#[derive(Debug, Clone, Copy, PartialEq, Eq, Structural)]
pub enum Level {
    Low,
    High,
    Idle,
    Up,
    Down,
}

/// An ordered sequence of levels describing a signal's trace over time.
#[derive(Debug, Clone, PartialEq)]
pub struct Wave {
    pub levels: Vec<Level>,
}

impl View for Wave {
    type V = Seq<Level>;

    open spec fn view(&self) -> Seq<Level> {
        self.levels@
    }
}

impl Default for Wave {
    fn default() -> (w: Self)
        ensures
            w@ == Seq::<Level>::empty(),
    {
        Wave { levels: Vec::new() }
    }
}

impl Wave {
    pub fn new() -> (w: Self)
        ensures
            w@ == Seq::<Level>::empty(),
    {
        Wave { levels: Vec::new() }
    }

    /// The number of levels in the wave.
    pub fn len(&self) -> (n: usize)
        ensures
            n == self@.len(),
    {
        self.levels.len()
    }
}

/// Whether a signal's scalars lie within what the fixed-point arithmetic
/// admits: no negative phase, a positive period, both bounded, and a
/// bounded level count.
pub open spec fn signal_fits(s: SignalV) -> bool {
    &&& 0 <= s.phase <= MAX_PHASE as int
    &&& 0 < s.period <= MAX_PERIOD as int
    &&& s.levels.len() <= MAX_WAVE_LEVELS as int
}

/// The mathematical value of a signal.
pub ghost struct SignalV {
    pub name: Seq<char>,
    pub levels: Seq<Level>,
    /// Horizontal shift drawn before the first level, in milli-periods.
    pub phase: int,
    /// Width of one level slot, in milli-periods.
    pub period: int,
    pub color: Color,
    pub y_high: Seq<char>,
    pub y_low: Seq<char>,
}

/// A named wave with phase, period, color and a pair of y-axis rail labels.
#[derive(Debug, PartialEq)]
pub struct Signal {
    pub name: String,
    pub wave: Wave,
    /// Horizontal shift drawn before the first level, in milli-periods;
    /// meaningful when at least zero.
    pub phase: i64,
    /// Width of one level slot, in milli-periods; meaningful when positive.
    pub period: i64,
    pub color: Color,
    /// Texts shown at the high and the low rail.
    pub y_axis: (String, String),
}

impl View for Signal {
    type V = SignalV;

    open spec fn view(&self) -> SignalV {
        SignalV {
            name: self.name@,
            levels: self.wave@,
            phase: self.phase as int,
            period: self.period as int,
            color: self.color,
            y_high: self.y_axis.0@,
            y_low: self.y_axis.1@,
        }
    }
}

/// The signal every constructor starts from: named "Sig", an empty wave,
/// no phase shift, one period unit per level, black, rails "H" and "L".
pub open spec fn spec_default_signal() -> SignalV {
    SignalV {
        name: "Sig"@,
        levels: Seq::empty(),
        phase: 0,
        period: MILLI as int,
        color: Color::Black,
        y_high: "H"@,
        y_low: "L"@,
    }
}

impl Default for Signal {
    fn default() -> (s: Self)
        ensures
            s@ == spec_default_signal(),
    {
        Signal {
            name: String::from_str("Sig"),
            wave: Wave::new(),
            phase: 0,
            period: MILLI,
            color: Color::Black,
            y_axis: (String::from_str("H"), String::from_str("L")),
        }
    }
}

impl Signal {
    pub fn new(name: String, wave: Wave) -> (s: Self)
        ensures
            s@ == (SignalV { name: name@, levels: wave@, ..spec_default_signal() }),
    {
        Signal { name, wave, ..Default::default() }
    }

    /// Shifts the wave by the given phase, in milli-periods.
    /// Supports the builder pattern.
    pub fn shift(self, phase: i64) -> (s: Self)
        ensures
            s@ == (SignalV { phase: phase as int, ..self@ }),
    {
        Signal { phase, ..self }
    }

    /// Scales the period of the wave to the given width, in milli-periods.
    /// Supports the builder pattern.
    pub fn scale(self, period: i64) -> (s: Self)
        ensures
            s@ == (SignalV { period: period as int, ..self@ }),
    {
        Signal { period, ..self }
    }

    /// Colors the wave. Supports the builder pattern.
    pub fn color_with(self, color: Color) -> (s: Self)
        ensures
            s@ == (SignalV { color: color, ..self@ }),
    {
        Signal { color, ..self }
    }

    pub fn set_name(&mut self, name: String) -> (r: &mut Self)
        ensures
            *r == (Signal { name: name, ..*old(self) }),
            *final(self) == *final(r),
    {
        self.name = name;
        self
    }

    pub fn set_wave(&mut self, wave: Wave) -> (r: &mut Self)
        ensures
            *r == (Signal { wave: wave, ..*old(self) }),
            *final(self) == *final(r),
    {
        self.wave = wave;
        self
    }

    pub fn set_phase(&mut self, phase: i64) -> (r: &mut Self)
        ensures
            *r == (Signal { phase: phase, ..*old(self) }),
            *final(self) == *final(r),
    {
        self.phase = phase;
        self
    }

    pub fn set_period(&mut self, period: i64) -> (r: &mut Self)
        ensures
            *r == (Signal { period: period, ..*old(self) }),
            *final(self) == *final(r),
    {
        self.period = period;
        self
    }

    pub fn set_color(&mut self, color: Color) -> (r: &mut Self)
        ensures
            *r == (Signal { color: color, ..*old(self) }),
            *final(self) == *final(r),
    {
        self.color = color;
        self
    }

    /// The number of levels in the signal's wave.
    pub fn len(&self) -> (n: usize)
        ensures
            n == self@.levels.len(),
    {
        self.wave.len()
    }
}

/// Whether a clock's trace goes up or down on the tock.
#[derive(Debug, Clone, Copy)]
pub enum ClockType {
    /// Goes down on tock: drawn as falling-edge symbols.
    Negativ,
    /// Goes up on tock: drawn as rising-edge symbols.
    Positiv,
}

/// Something that can produce a signal.
pub trait SignalGenerator {
    /// The signal this generator stands for.
    spec fn spec_signal(&self) -> SignalV;

    fn to_signal(&self) -> (s: Signal)
        ensures
            s@ == self.spec_signal(),
    ;
}

/// A clock generator: so many periods of one repeated edge symbol.
#[derive(Debug, Clone, Copy)]
pub struct Clock {
    typ: ClockType,
    periods: usize,
    name: &'static str,
}

impl Clock {
    pub fn positiv(periods: usize) -> (c: Self)
        ensures
            c.spec_signal() == (SignalV {
                name: "Clock"@,
                levels: Seq::new(periods as nat, |i: int| Level::Down),
                ..spec_default_signal()
            }),
    {
        Clock { typ: ClockType::Positiv, periods, name: "Clock" }
    }

    pub fn negativ(periods: usize) -> (c: Self)
        ensures
            c.spec_signal() == (SignalV {
                name: "Clock"@,
                levels: Seq::new(periods as nat, |i: int| Level::Up),
                ..spec_default_signal()
            }),
    {
        Clock { typ: ClockType::Negativ, periods, name: "Clock" }
    }

    /// Sets the clock's name. Supports the builder pattern.
    pub fn name(self, name: &'static str) -> (c: Self)
        ensures
            c.spec_signal() == (SignalV { name: name@, ..self.spec_signal() }),
    {
        Clock { name, ..self }
    }
}

impl SignalGenerator for Clock {
    closed spec fn spec_signal(&self) -> SignalV {
        SignalV {
            name: self.name@,
            levels: Seq::new(
                self.periods as nat,
                |i: int|
                    match self.typ {
                        ClockType::Negativ => Level::Up,
                        ClockType::Positiv => Level::Down,
                    },
            ),
            ..spec_default_signal()
        }
    }

    fn to_signal(&self) -> (s: Signal) {
        let repeated = match self.typ {
            ClockType::Negativ => Level::Up,
            ClockType::Positiv => Level::Down,
        };
        let mut levels: Vec<Level> = Vec::new();
        let mut i: usize = 0;
        while i < self.periods
            invariant
                i <= self.periods,
                levels@.len() == i,
                forall|j: int| 0 <= j < i ==> levels@[j] == repeated,
            decreases self.periods - i,
        {
            levels.push(repeated);
            i = i + 1;
        }
        let wave = Wave { levels };
        proof {
            assert(wave@ =~= self.spec_signal().levels);
        }
        Signal::new(String::from_str(self.name), wave)
    }
}

} // verus!
