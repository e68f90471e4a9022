//! Parsers for the compact wave notation and for command-line style
//! diagram descriptions.
//!
//! The wave notation maps the characters `h`, `l`, `u`, `d`, `i`
//! (case-insensitive) to levels and fails, with a typed error, on any
//! other character.

use vstd::prelude::*;

use crate::color::{spec_hex_digit, hex_digit_str, Color};
use crate::diagram::{Diagram, DiagramV, Lane, LaneV};
use crate::error::{ParseError, ParseWaveError};
use crate::signal::{spec_default_signal, Clock, Level, Signal, SignalGenerator, SignalV, Wave};

verus! {

/// The level a wave-notation character stands for, if any.
pub open spec fn spec_level_of_char(c: char) -> Option<Level> {
    if c == 'l' || c == 'L' {
        Some(Level::Low)
    } else if c == 'h' || c == 'H' {
        Some(Level::High)
    } else if c == 'u' || c == 'U' {
        Some(Level::Up)
    } else if c == 'd' || c == 'D' {
        Some(Level::Down)
    } else if c == 'i' || c == 'I' {
        Some(Level::Idle)
    } else {
        None
    }
}

/// Whether every character of the string is wave notation.
pub open spec fn wave_notation_valid(s: Seq<char>) -> bool {
    forall|i: int| 0 <= i < s.len() ==> (#[trigger] spec_level_of_char(s[i])) is Some
}

/// The levels a valid wave-notation string stands for.
pub open spec fn spec_wave_levels(s: Seq<char>) -> Seq<Level> {
    s.map_values(
        |c: char|
            match spec_level_of_char(c) {
                Some(l) => l,
                None => Level::Low,
            },
    )
}

/// Parses a wave-notation string. Succeeds — with exactly the level per
/// character — if and only if every character is one of `h`, `l`, `u`,
/// `d`, `i`, in either case.
pub fn wave_from_str(s: &str) -> (r: Result<Wave, ParseWaveError>)
    ensures
        match r {
            Ok(w) => wave_notation_valid(s@) && w@ == spec_wave_levels(s@),
            Err(e) => !wave_notation_valid(s@) && e@ == "Could not parse signal wave"@,
        },
{
    let len = s.unicode_len();
    let mut levels: Vec<Level> = Vec::new();
    let mut i: usize = 0;
    while i < len
        invariant
            len == s@.len(),
            0 <= i <= len,
            forall|j: int| 0 <= j < i ==> (#[trigger] spec_level_of_char(s@[j])) is Some,
            levels@ == spec_wave_levels(s@.take(i as int)),
        decreases len - i,
    {
        let c = s.get_char(i);
        let level = match c {
            'l' | 'L' => Level::Low,
            'h' | 'H' => Level::High,
            'u' | 'U' => Level::Up,
            'd' | 'D' => Level::Down,
            'i' | 'I' => Level::Idle,
            _ => {
                proof {
                    assert(spec_level_of_char(s@[i as int]) is None);
                }
                return Err(ParseWaveError::new("Could not parse signal wave"));
            },
        };
        levels.push(level);
        proof {
            assert(spec_wave_levels(s@.take(i as int + 1)) =~= spec_wave_levels(
                s@.take(i as int),
            ).push(level));
        }
        i = i + 1;
    }
    proof {
        assert(s@.take(len as int) =~= s@);
    }
    Ok(Wave { levels })
}

impl core::str::FromStr for Wave {
    type Err = ParseWaveError;

    fn from_str(s: &str) -> Result<Wave, ParseWaveError> {
        wave_from_str(s)
    }
}

impl core::str::FromStr for Signal {
    type Err = ParseWaveError;

    fn from_str(s: &str) -> Result<Signal, ParseWaveError> {
        signal_from_str(s)
    }
}

/// Whether a character is a decimal digit.
pub open spec fn spec_is_digit(c: char) -> bool {
    '0' <= c && c <= '9'
}

/// The value of a decimal digit.
pub open spec fn spec_digit_val(c: char) -> int {
    c as int - '0' as int
}

/// Whether the string is one or more decimal digits.
pub open spec fn all_digits(s: Seq<char>) -> bool {
    forall|i: int| 0 <= i < s.len() ==> spec_is_digit(#[trigger] s[i])
}

/// The value of a decimal digit string.
pub open spec fn spec_dec_val(s: Seq<char>) -> int
    decreases s,
{
    if s.len() == 0 {
        0
    } else {
        spec_dec_val(s.drop_last()) * 10 + spec_digit_val(s.last())
    }
}

proof fn lemma_dec_val_nonneg(s: Seq<char>)
    requires
        all_digits(s),
    ensures
        spec_dec_val(s) >= 0,
    decreases s,
{
    if s.len() > 0 {
        assert(forall|i: int|
            0 <= i < s.drop_last().len() ==> spec_is_digit(#[trigger] s.drop_last()[i]));
        lemma_dec_val_nonneg(s.drop_last());
    }
}

/// A digit string's value never falls below the value of any of its
/// prefixes.
proof fn lemma_dec_val_prefix_le(s: Seq<char>, k: int)
    requires
        all_digits(s),
        0 <= k <= s.len(),
    ensures
        spec_dec_val(s.take(k)) <= spec_dec_val(s),
    decreases s.len() - k,
{
    if k < s.len() {
        let t = s.take(k + 1);
        assert(t.drop_last() =~= s.take(k));
        assert(forall|i: int|
            0 <= i < s.take(k).len() ==> spec_is_digit(#[trigger] s.take(k)[i]));
        lemma_dec_val_nonneg(s.take(k));
        assert(spec_dec_val(t) == spec_dec_val(s.take(k)) * 10 + spec_digit_val(t.last()));
        assert(spec_dec_val(s.take(k)) * 10 >= spec_dec_val(s.take(k))) by (nonlinear_arith)
            requires
                spec_dec_val(s.take(k)) >= 0,
        ;
        lemma_dec_val_prefix_le(s, k + 1);
    } else {
        assert(s.take(k) =~= s);
    }
}

/// Reads the decimal number that fills the rest of the string, starting
/// at `start`. Yields the value if and only if there is at least one
/// character, all of them are digits, and the value fits in `usize`.
fn parse_usize_digits(s: &str, start: usize) -> (r: Option<usize>)
    requires
        start <= s@.len(),
    ensures
        match r {
            Some(n) => {
                &&& s@.len() - start > 0
                &&& all_digits(s@.skip(start as int))
                &&& spec_dec_val(s@.skip(start as int)) <= usize::MAX as int
                &&& n as int == spec_dec_val(s@.skip(start as int))
            },
            None => !{
                &&& s@.len() - start > 0
                &&& all_digits(s@.skip(start as int))
                &&& spec_dec_val(s@.skip(start as int)) <= usize::MAX as int
            },
        },
{
    let ghost digits = s@.skip(start as int);
    let len = s.unicode_len();
    if start == len {
        return None;
    }
    let mut acc: usize = 0;
    let mut i: usize = start;
    while i < len
        invariant
            start <= i <= len,
            len == s@.len(),
            start < len,
            digits == s@.skip(start as int),
            forall|j: int| 0 <= j < i - start ==> spec_is_digit(#[trigger] digits[j]),
            acc as int == spec_dec_val(digits.take(i - start)),
        decreases len - i,
    {
        let c = s.get_char(i);
        if c < '0' || c > '9' {
            proof {
                assert(digits[i - start] == s@[i as int]);
                assert(!spec_is_digit(digits[i - start]));
            }
            return None;
        }
        let d: usize = (c as u32 as usize) - ('0' as u32 as usize);
        proof {
            assert(digits[i - start] == s@[i as int]);
            assert(d as int == spec_digit_val(digits[i - start]));
        }
        if acc > (usize::MAX - d) / 10 {
            proof {
                let k = i - start + 1;
                assert(digits.take(k).drop_last() =~= digits.take(i - start));
                assert(spec_dec_val(digits.take(k)) == acc as int * 10 + d as int);
                assert(acc as int * 10 + d as int > usize::MAX as int) by (nonlinear_arith)
                    requires
                        acc as int > (usize::MAX as int - d as int) / 10,
                        0 <= d as int <= 9,
                        acc as int >= 0,
                ;
                assert(all_digits(digits) ==> spec_dec_val(digits) > usize::MAX as int) by {
                    if all_digits(digits) {
                        lemma_dec_val_prefix_le(digits, k);
                    }
                }
            }
            return None;
        }
        proof {
            assert(acc as int * 10 + d as int <= usize::MAX as int) by (nonlinear_arith)
                requires
                    acc as int <= (usize::MAX as int - d as int) / 10,
                    0 <= d as int <= 9,
                    acc as int >= 0,
            ;
            let k = i - start + 1;
            assert(digits.take(k).drop_last() =~= digits.take(i - start));
        }
        acc = acc * 10 + d;
        i = i + 1;
    }
    proof {
        assert(digits.take(len - start) =~= digits);
    }
    Some(acc)
}

/// Whether a string is a well-formed clock description: `pclk-` or
/// `nclk-`, then a period count that fits in `usize`.
pub open spec fn clock_str_ok(s: Seq<char>) -> bool {
    &&& s.len() > 5
    &&& (s.subrange(0, 5) == "pclk-"@ || s.subrange(0, 5) == "nclk-"@)
    &&& all_digits(s.skip(5))
    &&& spec_dec_val(s.skip(5)) <= usize::MAX as int
}

/// The signal a well-formed clock description stands for: so many
/// falling-edge symbols for a positive clock, rising-edge symbols for a
/// negative one.
pub open spec fn spec_clock_signal(s: Seq<char>) -> SignalV {
    let n = spec_dec_val(s.skip(5));
    SignalV {
        name: "Clock"@,
        levels: Seq::new(
            n as nat,
            |i: int|
                if s.subrange(0, 5) == "pclk-"@ {
                    Level::Down
                } else {
                    Level::Up
                },
        ),
        ..spec_default_signal()
    }
}

/// Parses a clock description such as `pclk-4` or `nclk-12`. Succeeds
/// if and only if the string is well-formed clock notation.
pub fn signal_from_str(s: &str) -> (r: Result<Signal, ParseWaveError>)
    ensures
        match r {
            Ok(sig) => clock_str_ok(s@) && sig@ == spec_clock_signal(s@),
            Err(_) => !clock_str_ok(s@),
        },
{
    proof {
        reveal_strlit("pclk-");
        reveal_strlit("nclk-");
    }
    let len = s.unicode_len();
    if len < 6 {
        return Err(ParseWaveError::new("Could not parse signal from given string"));
    }
    proof {
        assert(s@.subrange(0, 5)[0] == s@[0]);
        assert(s@.subrange(0, 5)[1] == s@[1]);
        assert(s@.subrange(0, 5)[2] == s@[2]);
        assert(s@.subrange(0, 5)[3] == s@[3]);
        assert(s@.subrange(0, 5)[4] == s@[4]);
    }
    let c0 = s.get_char(0);
    let positive = if c0 == 'p' {
        true
    } else if c0 == 'n' {
        false
    } else {
        return Err(ParseWaveError::new("Could not parse signal"));
    };
    if s.get_char(1) != 'c' || s.get_char(2) != 'l' || s.get_char(3) != 'k' || s.get_char(4)
        != '-' {
        return Err(ParseWaveError::new("Could not parse signal"));
    }
    proof {
        if positive {
            assert(s@.subrange(0, 5) =~= "pclk-"@);
            assert(s@.subrange(0, 5) != "nclk-"@);
        } else {
            assert(s@.subrange(0, 5) =~= "nclk-"@);
            assert(s@.subrange(0, 5) != "pclk-"@);
        }
    }
    let n = match parse_usize_digits(s, 5) {
        Some(n) => n,
        None => {
            return Err(ParseWaveError::new("Could not parse signal"));
        },
    };
    let clock = if positive {
        Clock::positiv(n)
    } else {
        Clock::negativ(n)
    };
    let sig = clock.to_signal();
    proof {
        assert(sig@.levels =~= spec_clock_signal(s@).levels);
    }
    Ok(sig)
}

/// The decimal digits of a number.
pub open spec fn spec_dec_digits(n: int) -> Seq<char>
    decreases n,
{
    if n < 10 {
        seq![spec_hex_digit(if n < 0 {
            0
        } else {
            n
        })]
    } else {
        spec_dec_digits(n / 10).push(spec_hex_digit(n % 10))
    }
}

/// Appends the decimal digits of a number.
fn push_decimal(out: &mut String, n: usize)
    ensures
        final(out)@ == old(out)@ + spec_dec_digits(n as int),
    decreases n,
{
    if n >= 10 {
        push_decimal(out, n / 10);
        out.append(hex_digit_str((n % 10) as u8));
        proof {
            assert(out@ =~= old(out)@ + spec_dec_digits(n as int));
        }
    } else {
        out.append(hex_digit_str(n as u8));
        proof {
            assert(out@ =~= old(out)@ + spec_dec_digits(n as int));
        }
    }
}

/// The name given to the unnamed signal at position `num`: `s-<num>`.
pub open spec fn spec_signal_name(num: int) -> Seq<char> {
    "s-"@ + spec_dec_digits(num)
}

/// The lane a clock description stands for.
pub open spec fn spec_clock_lane(s: Seq<char>) -> LaneV {
    LaneV { signal: spec_clock_signal(s), markers: Seq::empty(), labels: Seq::empty() }
}

/// The lane a wave-notation string stands for, under its given name.
pub open spec fn spec_wave_lane(num: int, wave: Seq<char>) -> LaneV {
    LaneV {
        signal: SignalV {
            name: spec_signal_name(num),
            levels: spec_wave_levels(wave),
            ..spec_default_signal()
        },
        markers: Seq::empty(),
        labels: Seq::empty(),
    }
}

/// The lanes a well-formed argument list stands for: the clocks in
/// order, then the signals in order.
pub open spec fn spec_args_lanes(clocks: Seq<Seq<char>>, signals: Seq<Seq<char>>) -> Seq<LaneV> {
    Seq::new(clocks.len(), |i: int| spec_clock_lane(clocks[i])) + Seq::new(
        signals.len(),
        |i: int| spec_wave_lane(i, signals[i]),
    )
}

/// Whether every clock and every signal of an argument list parses.
pub open spec fn args_ok(clocks: Seq<Seq<char>>, signals: Seq<Seq<char>>) -> bool {
    &&& forall|i: int| 0 <= i < clocks.len() ==> clock_str_ok(#[trigger] clocks[i])
    &&& forall|i: int| 0 <= i < signals.len() ==> wave_notation_valid(#[trigger] signals[i])
}

/// Parses a diagram from command-line style arguments: a title, a dark
/// flag, clock descriptions, and wave-notation signal strings. Succeeds
/// if and only if every clock and every wave parses; the signals are
/// named `s-0`, `s-1`, ... in order.
pub fn from_args(title: String, dark: bool, clocks: Vec<String>, signals: Vec<String>) -> (r:
    Result<Diagram, ParseError>)
    ensures
        match r {
            Ok(d) => {
                &&& args_ok(
                    clocks@.map_values(|s: String| s@),
                    signals@.map_values(|s: String| s@),
                )
                &&& d@ == (DiagramV {
                    title: crate::diagram::spec_normalized_title(Some(title@)),
                    background: if dark {
                        Color::Darkgray
                    } else {
                        Color::White
                    },
                    lanes: spec_args_lanes(
                        clocks@.map_values(|s: String| s@),
                        signals@.map_values(|s: String| s@),
                    ),
                })
            },
            Err(e) => {
                &&& !args_ok(
                    clocks@.map_values(|s: String| s@),
                    signals@.map_values(|s: String| s@),
                )
                &&& e is ParseWaveError
            },
        },
{
    let ghost cs = clocks@.map_values(|s: String| s@);
    let ghost ss = signals@.map_values(|s: String| s@);
    let mut diag = Diagram::new(Some(title)).dark(dark);
    let ghost base = diag@;
    proof {
        assert(base.lanes =~= Seq::new(0, |j: int| spec_clock_lane(cs[j])));
    }

    let mut i: usize = 0;
    while i < clocks.len()
        invariant
            0 <= i <= clocks@.len(),
            cs == clocks@.map_values(|s: String| s@),
            forall|j: int| 0 <= j < i ==> clock_str_ok(#[trigger] cs[j]),
            diag@ == (DiagramV {
                lanes: Seq::new(i as nat, |j: int| spec_clock_lane(cs[j])),
                ..base
            }),
        decreases clocks@.len() - i,
    {
        let sig = match signal_from_str(clocks[i].as_str()) {
            Ok(sig) => sig,
            Err(e) => {
                return Err(ParseError::ParseWaveError(e));
            },
        };
        diag.append(Lane::new(sig));
        proof {
            assert(Seq::new(i as nat + 1, |j: int| spec_clock_lane(cs[j])) =~= Seq::new(
                i as nat,
                |j: int| spec_clock_lane(cs[j]),
            ).push(spec_clock_lane(cs[i as int])));
        }
        i = i + 1;
    }
    let ghost clock_lanes = Seq::new(cs.len(), |j: int| spec_clock_lane(cs[j]));
    proof {
        assert(Seq::new(i as nat, |j: int| spec_clock_lane(cs[j])) =~= clock_lanes);
    }

    let mut num: usize = 0;
    while num < signals.len()
        invariant
            0 <= num <= signals@.len(),
            cs == clocks@.map_values(|s: String| s@),
            ss == signals@.map_values(|s: String| s@),
            clock_lanes == Seq::new(cs.len(), |j: int| spec_clock_lane(cs[j])),
            forall|j: int| 0 <= j < cs.len() ==> clock_str_ok(#[trigger] cs[j]),
            forall|j: int| 0 <= j < num ==> wave_notation_valid(#[trigger] ss[j]),
            diag@ == (DiagramV {
                lanes: clock_lanes + Seq::new(num as nat, |j: int| spec_wave_lane(j, ss[j])),
                ..base
            }),
        decreases signals@.len() - num,
    {
        let wave = match wave_from_str(signals[num].as_str()) {
            Ok(w) => w,
            Err(e) => {
                return Err(ParseError::ParseWaveError(e));
            },
        };
        let mut name = String::from_str("s-");
        push_decimal(&mut name, num);
        proof {
            assert(name@ == spec_signal_name(num as int));
        }
        let signal = Signal::new(name, wave);
        diag.append(Lane::new(signal));
        proof {
            assert(clock_lanes + Seq::new(num as nat + 1, |j: int| spec_wave_lane(j, ss[j]))
                =~= (clock_lanes + Seq::new(num as nat, |j: int| spec_wave_lane(j, ss[j]))).push(
                spec_wave_lane(num as int, ss[num as int]),
            ));
        }
        num = num + 1;
    }
    proof {
        assert(clock_lanes + Seq::new(ss.len(), |j: int| spec_wave_lane(j, ss[j]))
            =~= spec_args_lanes(cs, ss));
        assert(Seq::new(num as nat, |j: int| spec_wave_lane(j, ss[j])) =~= Seq::new(
            ss.len(),
            |j: int| spec_wave_lane(j, ss[j]),
        ));
    }
    Ok(diag)
}

} // verus!
