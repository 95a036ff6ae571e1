//! The serial command protocol: the bounded line that collects one command
//! argument, the replies, and the handler that takes received bytes one at a
//! time.

use vstd::prelude::*;
use vstd::string::StringSliceAdditionalSpecFns;
use vstd::utf8::encode_scalar;
use crate::leds::{boundaries_of, parse_boundaries, TemperatureBoundaries};
use crate::text::{append_bytes, append_deci, append_str, deci_text};

verus! {

/// `heapless::String`, a string of fixed capacity, taken as an opaque type:
/// what is known of a value is what `line_bytes` and the functions below
/// say of it.
#[verifier::external_type_specification]
#[verifier::external_body]
pub struct ExBoundedString<const N: usize>(heapless::String<N>);

/// The bytes that a `heapless::String` of capacity 18 holds, first to last.
pub uninterp spec fn line_bytes(buf: heapless::String<18>) -> Seq<u8>;

/// Bytes that a line can hold.
pub const CAPACITY: usize = 18;

/// Byte that ends a command argument.
pub const TERMINATOR: u8 = 59;

/// Command byte: replace the thresholds.
pub const SET_COMMAND: u8 = 115;

/// Command byte: report the thresholds.
pub const GET_COMMAND: u8 = 103;

/// `heapless::String::new`. Trusted: the new string holds no byte.
#[verifier::external_body]
fn bounded_new() -> (r: heapless::String<18>)
    ensures
        line_bytes(r) == Seq::<u8>::empty(),
{
    heapless::String::new()
}

/// `heapless::String::push`. Trusted: the character's UTF-8 encoding is
/// appended where all of it fits into the 18 bytes; where it does not fit
/// the string stays as it was and the call fails. It never panics.
#[verifier::external_body]
fn bounded_push(buf: &mut heapless::String<18>, c: char) -> (r: Result<(), ()>)
    ensures
        r.is_ok() <==> line_bytes(*old(buf)).len() + encode_scalar(c as u32).len() <= 18,
        r.is_ok() ==> line_bytes(*final(buf)) == line_bytes(*old(buf)) + encode_scalar(c as u32),
        r.is_err() ==> line_bytes(*final(buf)) == line_bytes(*old(buf)),
    no_unwind
{
    buf.push(c)
}

/// `heapless::String::as_str`. Trusted: the slice has the string's bytes.
#[verifier::external_body]
fn bounded_str(buf: &heapless::String<18>) -> (r: &str)
    ensures
        r.spec_bytes() == line_bytes(*buf),
{
    buf.as_str()
}

/// The bytes that a received byte adds to a line: the UTF-8 encoding of the
/// character with that code.
pub open spec fn received_bytes(byte: u8) -> Seq<u8> {
    encode_scalar((byte as char) as u32)
}

/// A line after one more received byte: the byte's encoding is appended
/// where all of it fits, and dropped where it does not.
pub open spec fn grown(line: Seq<u8>, byte: u8) -> Seq<u8> {
    if line.len() + received_bytes(byte).len() <= CAPACITY {
        line + received_bytes(byte)
    } else {
        line
    }
}

/// A received byte below 128 is kept as it is; one from 128 up takes two
/// places in the line.
pub proof fn received_bytes_width(byte: u8)
    ensures
        byte < 128 ==> received_bytes(byte) == seq![byte],
        byte >= 128 ==> received_bytes(byte).len() == 2,
{
    let scalar = (byte as char) as u32;
    assert(scalar == byte as u32);
    if byte < 128 {
        assert((scalar & 0x7F) as u8 == byte) by (bit_vector)
            requires
                scalar == byte as u32,
                byte < 128,
        ;
        assert(received_bytes(byte) =~= seq![byte]);
    }
}

/// The argument of one command in flight, at most 18 bytes of it.
pub struct SerialLine {
    buf: heapless::String<18>,
}

impl View for SerialLine {
    type V = Seq<u8>;

    closed spec fn view(&self) -> Seq<u8> {
        line_bytes(self.buf)
    }
}

impl SerialLine {
    /// A line never holds more than its capacity.
    #[verifier::type_invariant]
    closed spec fn within_capacity(self) -> bool {
        line_bytes(self.buf).len() <= CAPACITY
    }

    /// An empty line.
    pub fn new() -> (r: Self)
        ensures
            r@ == Seq::<u8>::empty(),
    {
        SerialLine { buf: bounded_new() }
    }

    /// Takes one received byte. The terminator ends the line and is not
    /// stored; any other byte is stored while there is room and dropped
    /// after that. Returns whether the line has ended.
    pub fn accept(&mut self, byte: u8) -> (done: bool)
        ensures
            done == (byte == TERMINATOR),
            done ==> final(self)@ == old(self)@,
            !done ==> final(self)@ == grown(old(self)@, byte),
            final(self)@.len() <= CAPACITY,
    {
        proof {
            use_type_invariant(&*self);
        }
        if byte == TERMINATOR {
            return true;
        }
        let _ = bounded_push(&mut self.buf, byte as char);
        false
    }

    /// The line as text.
    pub fn as_str(&self) -> (r: &str)
        ensures
            r.spec_bytes() == self@,
            r.spec_bytes().len() <= CAPACITY,
    {
        proof {
            use_type_invariant(self);
        }
        bounded_str(&self.buf)
    }

    /// Empties the line.
    pub fn clear(&mut self)
        ensures
            final(self)@ == Seq::<u8>::empty(),
    {
        self.buf = bounded_new();
    }
}

/// The four boundaries as the replies list them, after the first label.
pub open spec fn boundary_list(tb: TemperatureBoundaries) -> Seq<u8> {
    deci_text(tb.cold as int) + ", Optimal: ".spec_bytes() + deci_text(tb.optimal as int)
        + ",  High: ".spec_bytes() + deci_text(tb.hot as int) + ", Critical: ".spec_bytes()
        + deci_text(tb.critical as int) + "\n".spec_bytes()
}

/// The reply to a get command.
pub open spec fn report_text(tb: TemperatureBoundaries) -> Seq<u8> {
    "Cold: ".spec_bytes() + boundary_list(tb)
}

/// The echo of a set command and its raw argument.
pub open spec fn echo_text(line: Seq<u8>) -> Seq<u8> {
    "Got s: ".spec_bytes() + line + "\n".spec_bytes()
}

/// The confirmation of a set command that took effect.
pub open spec fn confirmation_text(tb: TemperatureBoundaries) -> Seq<u8> {
    "Temp values changed: Low: ".spec_bytes() + boundary_list(tb)
}

/// The whole reply to a set command: the echo, and the confirmation where
/// the argument writes four boundaries.
pub open spec fn set_reply(line: Seq<u8>) -> Seq<u8> {
    match boundaries_of(line) {
        Some(tb) => echo_text(line) + confirmation_text(tb),
        None => echo_text(line),
    }
}

/// The boundaries after a set command with argument `line`.
pub open spec fn after_set(tb: TemperatureBoundaries, line: Seq<u8>) -> TemperatureBoundaries {
    match boundaries_of(line) {
        Some(replaced) => replaced,
        None => tb,
    }
}

/// A get command that follows a set command with a well-formed argument
/// reports exactly the four values that the argument writes.
pub proof fn get_after_set_reports_the_line(tb: TemperatureBoundaries, line: Seq<u8>)
    requires
        boundaries_of(line).is_some(),
    ensures
        after_set(tb, line) == boundaries_of(line).unwrap(),
        report_text(after_set(tb, line)) == report_text(boundaries_of(line).unwrap()),
        set_reply(line) == echo_text(line) + confirmation_text(boundaries_of(line).unwrap()),
{
}

/// A set command with a malformed argument leaves all four boundaries as
/// they were, and is answered by the echo alone.
pub proof fn malformed_set_changes_nothing(tb: TemperatureBoundaries, line: Seq<u8>)
    requires
        boundaries_of(line).is_none(),
    ensures
        after_set(tb, line) == tb,
        report_text(after_set(tb, line)) == report_text(tb),
        set_reply(line) == echo_text(line),
{
}

fn append_boundary_list(out: &mut Vec<u8>, tb: &TemperatureBoundaries)
    ensures
        final(out)@ == old(out)@ + boundary_list(*tb),
{
    append_deci(out, tb.cold);
    append_str(out, ", Optimal: ");
    append_deci(out, tb.optimal);
    append_str(out, ",  High: ");
    append_deci(out, tb.hot);
    append_str(out, ", Critical: ");
    append_deci(out, tb.critical);
    append_str(out, "\n");
    assert(out@ =~= old(out)@ + boundary_list(*tb));
}

/// The reply to a get command: the four boundaries, labelled.
pub fn report(tb: &TemperatureBoundaries) -> (r: Vec<u8>)
    ensures
        r@ == report_text(*tb),
{
    let mut out: Vec<u8> = Vec::new();
    append_str(&mut out, "Cold: ");
    append_boundary_list(&mut out, tb);
    assert(out@ =~= report_text(*tb));
    out
}

/// Carries out a set command with argument `line`: replaces all four
/// boundaries or none, and returns the reply.
pub fn apply_set(tb: &mut TemperatureBoundaries, line: &[u8]) -> (r: Vec<u8>)
    ensures
        *final(tb) == after_set(*old(tb), line@),
        r@ == set_reply(line@),
{
    let mut out: Vec<u8> = Vec::new();
    append_str(&mut out, "Got s: ");
    append_bytes(&mut out, line);
    append_str(&mut out, "\n");
    assert(out@ =~= echo_text(line@));
    match parse_boundaries(line) {
        Ok(replaced) => {
            *tb = replaced;
            append_str(&mut out, "Temp values changed: Low: ");
            append_boundary_list(&mut out, &replaced);
            assert(out@ =~= echo_text(line@) + confirmation_text(replaced));
        },
        Err(_) => {},
    }
    out
}

/// Whether an argument is open after `byte`.
pub open spec fn next_awaiting(awaiting: bool, byte: u8) -> bool {
    if awaiting {
        byte != TERMINATOR
    } else {
        byte == SET_COMMAND
    }
}

/// The argument bytes kept after `byte`.
pub open spec fn next_pending(awaiting: bool, pending: Seq<u8>, byte: u8) -> Seq<u8> {
    if awaiting {
        if byte == TERMINATOR {
            pending
        } else {
            grown(pending, byte)
        }
    } else if byte == SET_COMMAND {
        Seq::empty()
    } else {
        pending
    }
}

/// The boundaries after `byte`: only the terminator of an open argument can
/// change them.
pub open spec fn next_boundaries(
    awaiting: bool,
    pending: Seq<u8>,
    tb: TemperatureBoundaries,
    byte: u8,
) -> TemperatureBoundaries {
    if awaiting && byte == TERMINATOR {
        after_set(tb, pending)
    } else {
        tb
    }
}

/// What `byte` is answered with.
pub open spec fn reply_to(
    awaiting: bool,
    pending: Seq<u8>,
    tb: TemperatureBoundaries,
    byte: u8,
) -> Seq<u8> {
    if awaiting {
        if byte == TERMINATOR {
            set_reply(pending)
        } else {
            Seq::empty()
        }
    } else if byte == GET_COMMAND {
        report_text(tb)
    } else {
        Seq::empty()
    }
}

/// What the protocol remembers between two received bytes, with the
/// boundaries that it guards.
pub struct ProtocolState {
    pub awaiting: bool,
    pub pending: Seq<u8>,
    pub boundaries: TemperatureBoundaries,
}

/// The state after one received byte.
pub open spec fn step(state: ProtocolState, byte: u8) -> ProtocolState {
    ProtocolState {
        awaiting: next_awaiting(state.awaiting, byte),
        pending: next_pending(state.awaiting, state.pending, byte),
        boundaries: next_boundaries(state.awaiting, state.pending, state.boundaries, byte),
    }
}

/// The state after the bytes of `received`, first to last.
pub open spec fn run(state: ProtocolState, received: Seq<u8>) -> ProtocolState
    decreases received.len(),
{
    if received.len() == 0 {
        state
    } else {
        step(run(state, received.drop_last()), received.last())
    }
}

/// A line that arrives whole: at most 18 bytes, each below 128 and none
/// the terminator.
pub open spec fn plain(line: Seq<u8>) -> bool {
    line.len() <= CAPACITY && forall|i: int|
        0 <= i < line.len() ==> (#[trigger] line[i]) < 128 && line[i] != TERMINATOR
}

/// The bytes of a set command with argument `line`.
pub open spec fn set_command(line: Seq<u8>) -> Seq<u8> {
    seq![SET_COMMAND] + line + seq![TERMINATOR]
}

/// After `s` and the first bytes of a plain line the handler waits, and has
/// kept exactly those bytes.
pub proof fn plain_bytes_are_kept(state: ProtocolState, line: Seq<u8>)
    requires
        !state.awaiting,
        plain(line),
    ensures
        run(state, seq![SET_COMMAND] + line) == (ProtocolState {
            awaiting: true,
            pending: line,
            boundaries: state.boundaries,
        }),
    decreases line.len(),
{
    let received = seq![SET_COMMAND] + line;
    if line.len() == 0 {
        assert(received.drop_last() =~= Seq::<u8>::empty());
        assert(run(state, received.drop_last()) == state);
        assert(line =~= Seq::<u8>::empty());
    } else {
        let front = line.drop_last();
        plain_bytes_are_kept(state, front);
        assert(received.drop_last() =~= seq![SET_COMMAND] + front);
        assert(received.last() == line.last());
        received_bytes_width(line.last());
        assert(grown(front, line.last()) =~= line);
    }
}

/// A set command with a plain argument replaces all four boundaries by
/// those that the argument writes, or leaves all four as they were where
/// it writes none; either way no command is in progress after it. A get
/// command that follows reports the boundaries so arrived at: after a
/// well-formed argument exactly the values written, after a malformed one
/// the values from before.
pub proof fn set_then_get(state: ProtocolState, line: Seq<u8>)
    requires
        !state.awaiting,
        plain(line),
    ensures
        run(state, set_command(line)) == (ProtocolState {
            awaiting: false,
            pending: line,
            boundaries: after_set(state.boundaries, line),
        }),
        boundaries_of(line).is_some() ==> reply_to(
            false,
            line,
            run(state, set_command(line)).boundaries,
            GET_COMMAND,
        ) == report_text(boundaries_of(line).unwrap()),
        boundaries_of(line).is_none() ==> reply_to(
            false,
            line,
            run(state, set_command(line)).boundaries,
            GET_COMMAND,
        ) == report_text(state.boundaries),
{
    plain_bytes_are_kept(state, line);
    assert(set_command(line).drop_last() =~= seq![SET_COMMAND] + line);
}

/// The protocol's state between two received bytes.
pub struct CommandHandler {
    awaiting: bool,
    line: SerialLine,
}

impl CommandHandler {
    /// Whether a set command waits for the rest of its argument.
    pub closed spec fn awaiting_line(&self) -> bool {
        self.awaiting
    }

    /// The argument bytes kept so far.
    pub closed spec fn pending(&self) -> Seq<u8> {
        self.line@
    }

    /// The handler's part of the protocol's state, beside boundaries `tb`.
    pub open spec fn state(&self, tb: TemperatureBoundaries) -> ProtocolState {
        ProtocolState { awaiting: self.awaiting_line(), pending: self.pending(), boundaries: tb }
    }

    /// A handler with no command in progress.
    pub fn new() -> (r: Self)
        ensures
            !r.awaiting_line(),
            r.pending() == Seq::<u8>::empty(),
    {
        CommandHandler { awaiting: false, line: SerialLine::new() }
    }

    /// Whether the next byte belongs to the argument of a set command.
    pub fn is_awaiting_line(&self) -> (r: bool)
        ensures
            r == self.awaiting_line(),
    {
        self.awaiting
    }

    /// Takes one received byte and returns what to transmit in answer.
    ///
    /// With no command in progress, `s` opens an empty argument, `g` is
    /// answered by the report, and any other byte is ignored. While an
    /// argument is open, the terminator carries the command out and any
    /// other byte joins the argument.
    pub fn on_byte(&mut self, tb: &mut TemperatureBoundaries, byte: u8) -> (r: Vec<u8>)
        ensures
            final(self).state(*final(tb)) == step(old(self).state(*old(tb)), byte),
            r@ == reply_to(old(self).awaiting_line(), old(self).pending(), *old(tb), byte),
            final(self).pending().len() <= CAPACITY,
    {
        proof {
            use_type_invariant(&self.line);
        }
        if self.awaiting {
            if self.line.accept(byte) {
                self.awaiting = false;
                apply_set(tb, self.line.as_str().as_bytes())
            } else {
                Vec::new()
            }
        } else if byte == SET_COMMAND {
            self.awaiting = true;
            self.line.clear();
            Vec::new()
        } else if byte == GET_COMMAND {
            report(tb)
        } else {
            Vec::new()
        }
    }
}

} // verus!
