//! Alert thresholds and the lamp policy. The bank has eight lamps, numbered
//! 0 to 7. `LedArray` keeps the level that each lamp was last told to take
//! and hands out the steps that put the bank into that state.

use vstd::prelude::*;
use vstd::string::StringSliceAdditionalSpecFns;
use crate::text::{
    deci_text, deci_value, digit_text_is_read_back, parse_deci, written_text_is_read_back,
    MAX_WHOLE,
};

verus! {

/// What can go wrong with a lamp request or a threshold line.
#[derive(Debug)]
pub enum Error<E> {
    /// A lamp index above 7, or a threshold line with fewer than four fields.
    ArrayOutOfBounds,
    /// The transport failed, or a field is no number; `E` says how.
    Gpio(E),
}

/// What a threshold line with an unreadable field is answered with.
pub const PARSE_FAILURE: &'static str = "threshold field is not a number";

/// Number of lamps in the bank.
pub const LAMPS: u8 = 8;

/// Lamp that shows a temperature at or above `hot`.
pub const HOT_LAMP: u8 = 4;

/// Lamp that shows a temperature at or above `optimal`.
pub const OPTIMAL_LAMP: u8 = 2;

/// Lamp that shows a temperature below `cold`.
pub const COLD_LAMP: u8 = 3;

/// Milliseconds that each frame of the animation is held.
pub const FRAME_MS: u16 = 25;

/// The four alert boundaries, in tenths of a degree.
#[derive(Clone, Copy, Debug, PartialEq, Eq, Structural)]
pub struct TemperatureBoundaries {
    pub cold: i32,
    pub optimal: i32,
    pub hot: i32,
    pub critical: i32,
}

/// Index of the first comma of `s` at or after `from`; the length of `s`
/// where there is none.
pub open spec fn comma_at(s: Seq<u8>, from: int) -> int
    decreases s.len() - from,
{
    if from < 0 || from >= s.len() {
        s.len() as int
    } else if s[from] == 44 {
        from
    } else {
        comma_at(s, from + 1)
    }
}

/// Where field `n` of a comma-separated line starts. A line has a field `n`
/// exactly when this is at most the line's length.
pub open spec fn field_start(s: Seq<u8>, n: nat) -> int
    decreases n,
{
    if n == 0 {
        0
    } else {
        comma_at(s, field_start(s, (n - 1) as nat)) + 1
    }
}

pub open spec fn has_field(s: Seq<u8>, n: nat) -> bool {
    field_start(s, n) <= s.len()
}

/// Field `n` of a comma-separated line, without its commas.
pub open spec fn field(s: Seq<u8>, n: nat) -> Seq<u8> {
    s.subrange(field_start(s, n), comma_at(s, field_start(s, n)))
}

/// The boundaries that a line writes: its first four fields, in the order
/// cold, optimal, hot, critical, each a decimal number.
pub open spec fn boundaries_of(s: Seq<u8>) -> Option<TemperatureBoundaries> {
    if has_field(s, 3) && deci_value(field(s, 0)).is_some() && deci_value(field(s, 1)).is_some()
        && deci_value(field(s, 2)).is_some() && deci_value(field(s, 3)).is_some() {
        Some(
            TemperatureBoundaries {
                cold: deci_value(field(s, 0)).unwrap() as i32,
                optimal: deci_value(field(s, 1)).unwrap() as i32,
                hot: deci_value(field(s, 2)).unwrap() as i32,
                critical: deci_value(field(s, 3)).unwrap() as i32,
            },
        )
    } else {
        None
    }
}

/// The line that writes `tb`: its four boundaries as decimal text, with
/// commas between them.
pub open spec fn boundary_line(tb: TemperatureBoundaries) -> Seq<u8> {
    deci_text(tb.cold as int) + seq![44u8] + deci_text(tb.optimal as int) + seq![44u8] + deci_text(
        tb.hot as int,
    ) + seq![44u8] + deci_text(tb.critical as int)
}

/// Whether a value is one that a field of a line can write.
pub open spec fn writable(v: int) -> bool {
    -(MAX_WHOLE * 10 + 9) <= v <= MAX_WHOLE * 10 + 9
}

/// Decimal text holds no comma.
pub proof fn deci_text_has_no_comma(v: int)
    ensures
        forall|i: int| 0 <= i < deci_text(v).len() ==> #[trigger] deci_text(v)[i] != 44,
{
    let m = if v < 0 {
        (-v) as nat
    } else {
        v as nat
    };
    digit_text_is_read_back(m / 10);
}

/// Where no comma stands from `from` up to `to`, and `to` is a comma or the
/// end, the first comma at or after `from` is at `to`.
pub proof fn comma_at_is_next(s: Seq<u8>, from: int, to: int)
    requires
        0 <= from <= to <= s.len(),
        forall|i: int| from <= i < to ==> #[trigger] s[i] != 44,
        to < s.len() ==> s[to] == 44,
    ensures
        comma_at(s, from) == to,
    decreases to - from,
{
    if from < to {
        comma_at_is_next(s, from + 1, to);
    }
}

/// Every setting of the boundaries within the range of a field can be
/// written as a line, and that line is read back as the same setting.
pub proof fn written_line_is_read_back(tb: TemperatureBoundaries)
    requires
        writable(tb.cold as int),
        writable(tb.optimal as int),
        writable(tb.hot as int),
        writable(tb.critical as int),
    ensures
        boundaries_of(boundary_line(tb)) == Some(tb),
{
    let a = deci_text(tb.cold as int);
    let b = deci_text(tb.optimal as int);
    let c = deci_text(tb.hot as int);
    let d = deci_text(tb.critical as int);
    let s = boundary_line(tb);
    deci_text_has_no_comma(tb.cold as int);
    deci_text_has_no_comma(tb.optimal as int);
    deci_text_has_no_comma(tb.hot as int);
    deci_text_has_no_comma(tb.critical as int);
    written_text_is_read_back(tb.cold as int);
    written_text_is_read_back(tb.optimal as int);
    written_text_is_read_back(tb.hot as int);
    written_text_is_read_back(tb.critical as int);
    let e0 = a.len() as int;
    let e1 = e0 + 1 + b.len();
    let e2 = e1 + 1 + c.len();
    let e3 = e2 + 1 + d.len();
    assert(s.len() == e3);
    assert forall|i: int| 0 <= i < e0 implies #[trigger] s[i] != 44 by {
        assert(s[i] == a[i]);
    }
    assert forall|i: int| e0 + 1 <= i < e1 implies #[trigger] s[i] != 44 by {
        assert(s[i] == b[i - e0 - 1]);
    }
    assert forall|i: int| e1 + 1 <= i < e2 implies #[trigger] s[i] != 44 by {
        assert(s[i] == c[i - e1 - 1]);
    }
    assert forall|i: int| e2 + 1 <= i < e3 implies #[trigger] s[i] != 44 by {
        assert(s[i] == d[i - e2 - 1]);
    }
    assert(s[e0] == 44);
    assert(s[e1] == 44);
    assert(s[e2] == 44);
    comma_at_is_next(s, 0, e0);
    comma_at_is_next(s, e0 + 1, e1);
    comma_at_is_next(s, e1 + 1, e2);
    comma_at_is_next(s, e2 + 1, e3);
    reveal_with_fuel(field_start, 4);
    assert(field_start(s, 0) == 0);
    assert(field_start(s, 1) == e0 + 1);
    assert(field_start(s, 2) == e1 + 1);
    assert(field_start(s, 3) == e2 + 1);
    assert(field(s, 0) =~= a);
    assert(field(s, 1) =~= b);
    assert(field(s, 2) =~= c);
    assert(field(s, 3) =~= d);
}

fn find_comma(bytes: &[u8], from: usize) -> (r: usize)
    requires
        from <= bytes.len(),
    ensures
        r == comma_at(bytes@, from as int),
        from <= r <= bytes.len(),
{
    let mut i: usize = from;
    while i < bytes.len() && bytes[i] != 44
        invariant
            from <= i <= bytes.len(),
            comma_at(bytes@, from as int) == comma_at(bytes@, i as int),
        decreases bytes.len() - i,
    {
        i += 1;
    }
    i
}

/// Reads a threshold line.
pub fn parse_boundaries(line: &[u8]) -> (r: Result<TemperatureBoundaries, Error<&'static str>>)
    ensures
        match r {
            Ok(tb) => boundaries_of(line@) == Some(tb),
            Err(Error::ArrayOutOfBounds) => !has_field(line@, 3),
            Err(Error::Gpio(reason)) => has_field(line@, 3) && boundaries_of(line@).is_none()
                && reason == PARSE_FAILURE,
        },
{
    let n = line.len();
    proof {
        reveal_with_fuel(field_start, 4);
    }
    let end0 = find_comma(line, 0);
    if end0 >= n {
        return Err(Error::ArrayOutOfBounds);
    }
    let end1 = find_comma(line, end0 + 1);
    if end1 >= n {
        return Err(Error::ArrayOutOfBounds);
    }
    let end2 = find_comma(line, end1 + 1);
    if end2 >= n {
        return Err(Error::ArrayOutOfBounds);
    }
    let end3 = find_comma(line, end2 + 1);
    let cold = parse_deci(line, 0, end0);
    let optimal = parse_deci(line, end0 + 1, end1);
    let hot = parse_deci(line, end1 + 1, end2);
    let critical = parse_deci(line, end2 + 1, end3);
    match (cold, optimal, hot, critical) {
        (Some(cold), Some(optimal), Some(hot), Some(critical)) => Ok(
            TemperatureBoundaries { cold, optimal, hot, critical },
        ),
        _ => Err(Error::Gpio(PARSE_FAILURE)),
    }
}

impl TemperatureBoundaries {
    pub fn new(cold: i32, optimal: i32, hot: i32, critical: i32) -> (r: Self)
        ensures
            r == (TemperatureBoundaries { cold, optimal, hot, critical }),
    {
        TemperatureBoundaries { cold, optimal, hot, critical }
    }

    pub fn set_cold(&mut self, cold: i32)
        ensures
            *final(self) == (TemperatureBoundaries { cold, ..*old(self) }),
    {
        self.cold = cold;
    }

    pub fn set_optimal(&mut self, optimal: i32)
        ensures
            *final(self) == (TemperatureBoundaries { optimal, ..*old(self) }),
    {
        self.optimal = optimal;
    }

    pub fn set_hot(&mut self, hot: i32)
        ensures
            *final(self) == (TemperatureBoundaries { hot, ..*old(self) }),
    {
        self.hot = hot;
    }

    pub fn set_critical(&mut self, critical: i32)
        ensures
            *final(self) == (TemperatureBoundaries { critical, ..*old(self) }),
    {
        self.critical = critical;
    }

    /// Replaces all four boundaries by those that `string` writes, or
    /// leaves all four as they were where it writes none.
    pub fn set_from_string(&mut self, string: &str) -> (r: Result<(), Error<&'static str>>)
        ensures
            match r {
                Ok(()) => boundaries_of(string.spec_bytes()) == Some(*final(self)),
                Err(Error::ArrayOutOfBounds) => !has_field(string.spec_bytes(), 3) && *final(self)
                    == *old(self),
                Err(Error::Gpio(reason)) => has_field(string.spec_bytes(), 3) && boundaries_of(
                    string.spec_bytes(),
                ).is_none() && reason == PARSE_FAILURE && *final(self) == *old(self),
            },
    {
        match parse_boundaries(string.as_bytes()) {
            Ok(tb) => {
                *self = tb;
                Ok(())
            },
            Err(e) => Err(e),
        }
    }
}

/// One step on the lamp bank.
#[derive(Clone, Copy, Debug, PartialEq, Eq, Structural)]
pub enum LampStep {
    /// Drive lamp `index` high (`on`) or low.
    Drive { index: u8, on: bool },
    /// Block for `ms` milliseconds.
    Hold { ms: u16 },
}

/// The five things that a temperature can ask of the bank.
#[derive(Clone, Copy, Debug, PartialEq, Eq, Structural)]
pub enum LedBranch {
    /// At or above `critical`: the circling animation.
    Critical,
    /// At or above `hot`: lamp 4 alone.
    Hot,
    /// At or above `optimal`: lamp 2 alone.
    Optimal,
    /// Below `cold`: lamp 3 alone.
    Cold,
    /// From `cold` up to `optimal`: every lamp off.
    Idle,
}

/// The branch for temperature `t`: the first test that holds, from the top.
pub open spec fn branch_of(tb: TemperatureBoundaries, t: int) -> LedBranch {
    if t >= tb.critical {
        LedBranch::Critical
    } else if t >= tb.hot {
        LedBranch::Hot
    } else if t >= tb.optimal {
        LedBranch::Optimal
    } else if t < tb.cold {
        LedBranch::Cold
    } else {
        LedBranch::Idle
    }
}

/// When a branch fires, each stated by its own test and the failure of
/// those before it.
pub open spec fn fires(tb: TemperatureBoundaries, t: int, branch: LedBranch) -> bool {
    match branch {
        LedBranch::Critical => t >= tb.critical,
        LedBranch::Hot => !(t >= tb.critical) && t >= tb.hot,
        LedBranch::Optimal => !(t >= tb.critical) && !(t >= tb.hot) && t >= tb.optimal,
        LedBranch::Cold => !(t >= tb.critical) && !(t >= tb.hot) && !(t >= tb.optimal) && t
            < tb.cold,
        LedBranch::Idle => !(t >= tb.critical) && !(t >= tb.hot) && !(t >= tb.optimal) && !(t
            < tb.cold),
    }
}

/// For every temperature and every setting of the boundaries exactly one
/// branch fires, and it is the one that `branch_of` names.
pub proof fn exactly_one_branch_fires(tb: TemperatureBoundaries, t: int, branch: LedBranch)
    ensures
        fires(tb, t, branch) <==> branch == branch_of(tb, t),
        fires(tb, t, branch_of(tb, t)),
{
}

/// Lamps 0 to `count - 1` driven to `on`, one after the other.
pub open spec fn fill_steps(on: bool, count: nat) -> Seq<LampStep> {
    Seq::new(count, |i: int| LampStep::Drive { index: i as u8, on })
}

/// Lamps 0 to `count - 1` driven to `on`, each followed by one frame's
/// hold.
pub open spec fn sweep_steps(on: bool, count: nat) -> Seq<LampStep>
    decreases count,
{
    if count == 0 {
        Seq::empty()
    } else {
        sweep_steps(on, (count - 1) as nat) + seq![
            LampStep::Drive { index: (count - 1) as u8, on },
            LampStep::Hold { ms: FRAME_MS },
        ]
    }
}

/// The circling animation: every lamp lit in turn, then every lamp put out
/// in the same order.
pub open spec fn animation_steps() -> Seq<LampStep> {
    sweep_steps(true, LAMPS as nat) + sweep_steps(false, LAMPS as nat)
}

/// What a branch adds once every lamp is off.
pub open spec fn branch_steps(branch: LedBranch) -> Seq<LampStep> {
    match branch {
        LedBranch::Critical => animation_steps(),
        LedBranch::Hot => seq![LampStep::Drive { index: HOT_LAMP, on: true }],
        LedBranch::Optimal => seq![LampStep::Drive { index: OPTIMAL_LAMP, on: true }],
        LedBranch::Cold => seq![LampStep::Drive { index: COLD_LAMP, on: true }],
        LedBranch::Idle => Seq::empty(),
    }
}

/// The bank with every lamp at `on`.
pub open spec fn uniform(on: bool) -> Seq<bool> {
    Seq::new(LAMPS as nat, |i: int| on)
}

/// The bank as a branch leaves it.
pub open spec fn branch_levels(branch: LedBranch) -> Seq<bool> {
    match branch {
        LedBranch::Critical => uniform(false),
        LedBranch::Hot => uniform(false).update(HOT_LAMP as int, true),
        LedBranch::Optimal => uniform(false).update(OPTIMAL_LAMP as int, true),
        LedBranch::Cold => uniform(false).update(COLD_LAMP as int, true),
        LedBranch::Idle => uniform(false),
    }
}

/// Picks the branch for temperature `temperature`.
pub fn classify(tb: &TemperatureBoundaries, temperature: i32) -> (r: LedBranch)
    ensures
        r == branch_of(*tb, temperature as int),
{
    if temperature >= tb.critical {
        LedBranch::Critical
    } else if temperature >= tb.hot {
        LedBranch::Hot
    } else if temperature >= tb.optimal {
        LedBranch::Optimal
    } else if temperature < tb.cold {
        LedBranch::Cold
    } else {
        LedBranch::Idle
    }
}

/// Whether `e` is the failure of the first step that failed.
pub open spec fn is_first_failure<E>(outcomes: Seq<Result<(), E>>, e: E) -> bool {
    exists|k: int|
        0 <= k < outcomes.len() && #[trigger] outcomes[k] == Err::<(), E>(e) && forall|j: int|
            0 <= j < k ==> (#[trigger] outcomes[j]).is_ok()
}

/// The outcome of a run of lamp steps that was carried out to its end
/// whatever failed on the way: success where every step succeeded, and the
/// first failure otherwise.
pub fn first_failure<E>(outcomes: Vec<Result<(), E>>) -> (r: Result<(), E>)
    ensures
        match r {
            Ok(()) => forall|i: int| 0 <= i < outcomes@.len() ==> (#[trigger] outcomes@[i]).is_ok(),
            Err(e) => is_first_failure(outcomes@, e),
        },
{
    let ghost all = outcomes@;
    let mut rest = outcomes;
    let mut found: Result<(), E> = Ok(());
    loop
        invariant
            all == outcomes@,
            rest@ == all.take(rest@.len() as int),
            rest@.len() <= all.len(),
            match found {
                Ok(()) => forall|i: int|
                    rest@.len() <= i < all.len() ==> (#[trigger] all[i]).is_ok(),
                Err(e) => exists|k: int|
                    rest@.len() <= k < all.len() && #[trigger] all[k] == Err::<(), E>(e)
                        && forall|j: int| rest@.len() <= j < k ==> (#[trigger] all[j]).is_ok(),
            },
        ensures
            rest@.len() == 0,
        decreases rest@.len(),
    {
        let ghost before = rest@.len() as int;
        match rest.pop() {
            None => {
                break ;
            },
            Some(outcome) => {
                assert(outcome == all[before - 1]);
                assert(rest@ =~= all.take(before - 1));
                match outcome {
                    Ok(()) => {},
                    Err(e) => {
                        assert(all[before - 1] == Err::<(), E>(e));
                        found = Err(e);
                    },
                }
            },
        }
    }
    found
}

/// The level that each of the eight lamps was last told to take.
#[derive(Clone, Copy, Debug, PartialEq, Eq)]
pub struct LedArray {
    pub leds: [bool; 8],
}

impl LedArray {
    /// A bank whose lamps stand at `leds`.
    pub fn new(leds: [bool; 8]) -> (r: Self)
        ensures
            r.leds == leds,
    {
        LedArray { leds }
    }

    /// Drives one lamp. An index above 7 is refused and changes nothing.
    pub fn set<E>(&mut self, led_index: u8, state: bool) -> (r: Result<LampStep, Error<E>>)
        ensures
            match r {
                Ok(step) => led_index < LAMPS && step == (LampStep::Drive {
                    index: led_index,
                    on: state,
                }) && final(self).leds@ == old(self).leds@.update(led_index as int, state),
                Err(Error::ArrayOutOfBounds) => led_index >= LAMPS && final(self).leds == old(
                    self,
                ).leds,
                Err(Error::Gpio(_)) => false,
            },
    {
        if led_index > 7 {
            return Err(Error::ArrayOutOfBounds);
        }
        self.leds[led_index as usize] = state;
        Ok(LampStep::Drive { index: led_index, on: state })
    }

    /// Drives every lamp to `state`, lamp 0 first.
    pub fn set_all(&mut self, state: bool) -> (r: Vec<LampStep>)
        ensures
            r@ == fill_steps(state, LAMPS as nat),
            final(self).leds@ == uniform(state),
    {
        let mut out: Vec<LampStep> = Vec::new();
        let mut i: u8 = 0;
        while i < LAMPS
            invariant
                i <= LAMPS,
                out@ =~= fill_steps(state, i as nat),
                forall|k: int| 0 <= k < i ==> self.leds@[k] == state,
            decreases LAMPS - i,
        {
            self.leds[i as usize] = state;
            out.push(LampStep::Drive { index: i, on: state });
            i += 1;
        }
        assert(self.leds@ =~= uniform(state));
        out
    }

    fn sweep(&mut self, out: &mut Vec<LampStep>, state: bool)
        ensures
            final(out)@ == old(out)@ + sweep_steps(state, LAMPS as nat),
            final(self).leds@ == uniform(state),
    {
        let mut i: u8 = 0;
        assert(out@ =~= old(out)@ + sweep_steps(state, 0));
        while i < LAMPS
            invariant
                i <= LAMPS,
                out@ == old(out)@ + sweep_steps(state, i as nat),
                forall|k: int| 0 <= k < i ==> self.leds@[k] == state,
            decreases LAMPS - i,
        {
            self.leds[i as usize] = state;
            out.push(LampStep::Drive { index: i, on: state });
            out.push(LampStep::Hold { ms: FRAME_MS });
            assert(out@ =~= old(out)@ + sweep_steps(state, (i + 1) as nat));
            i += 1;
        }
        assert(self.leds@ =~= uniform(state));
    }

    /// The circling animation. It ends with every lamp off.
    pub fn circle_animation(&mut self) -> (r: Vec<LampStep>)
        ensures
            r@ == animation_steps(),
            final(self).leds@ == uniform(false),
    {
        let mut out: Vec<LampStep> = Vec::new();
        self.sweep(&mut out, true);
        self.sweep(&mut out, false);
        assert(out@ =~= animation_steps());
        out
    }

    /// Shows `temperature` on the bank: every lamp off, then what the one
    /// branch that fires under `tb` adds.
    pub fn set_from_tb(&mut self, tb: &TemperatureBoundaries, temperature: i32) -> (r: Vec<
        LampStep,
    >)
        ensures
            r@ == fill_steps(false, LAMPS as nat) + branch_steps(
                branch_of(*tb, temperature as int),
            ),
            final(self).leds@ == branch_levels(branch_of(*tb, temperature as int)),
    {
        let mut out = self.set_all(false);
        let ghost cleared = out@;
        match classify(tb, temperature) {
            LedBranch::Critical => {
                self.sweep(&mut out, true);
                self.sweep(&mut out, false);
                assert(out@ =~= cleared + animation_steps());
            },
            LedBranch::Hot => {
                self.leds[HOT_LAMP as usize] = true;
                out.push(LampStep::Drive { index: HOT_LAMP, on: true });
                assert(out@ =~= cleared + branch_steps(LedBranch::Hot));
            },
            LedBranch::Optimal => {
                self.leds[OPTIMAL_LAMP as usize] = true;
                out.push(LampStep::Drive { index: OPTIMAL_LAMP, on: true });
                assert(out@ =~= cleared + branch_steps(LedBranch::Optimal));
            },
            LedBranch::Cold => {
                self.leds[COLD_LAMP as usize] = true;
                out.push(LampStep::Drive { index: COLD_LAMP, on: true });
                assert(out@ =~= cleared + branch_steps(LedBranch::Cold));
            },
            LedBranch::Idle => {
                assert(out@ =~= cleared + branch_steps(LedBranch::Idle));
            },
        }
        out
    }
}

} // verus!
