//! The controller's wire protocol: what the host is asked to do, step by step.

use vstd::prelude::*;
use crate::instruction::Instruction;

verus! {

/// One step of the protocol, as a mathematical value.
pub enum Op {
    /// Drive the data/command select line low: the next bus write is an opcode.
    DcLow,
    /// Drive the data/command select line high: the next bus write is data.
    DcHigh,
    /// Drive the reset line low.
    RstLow,
    /// Drive the reset line high.
    RstHigh,
    /// Wait for at least this many milliseconds.
    Delay(u64),
    /// Write these bytes to the bus as one transaction.
    Write(Seq<u8>),
}

/// What the driver asks its host to do next.
#[derive(Debug)]
pub enum Action {
    SetDcLow,
    SetDcHigh,
    SetRstLow,
    SetRstHigh,
    Delay(u64),
    Write(Vec<u8>),
}

impl Action {
    /// The protocol step that this action asks for.
    pub open spec fn op(self) -> Op {
        match self {
            Action::SetDcLow => Op::DcLow,
            Action::SetDcHigh => Op::DcHigh,
            Action::SetRstLow => Op::RstLow,
            Action::SetRstHigh => Op::RstHigh,
            Action::Delay(ms) => Op::Delay(ms),
            Action::Write(bytes) => Op::Write(bytes@),
        }
    }
}

/// The steps of a list of actions.
pub open spec fn ops_of(actions: Seq<Action>) -> Seq<Op> {
    actions.map_values(|a: Action| a.op())
}

/// The two-phase transaction of one command: the opcode with the select line
/// low, then, only where there are parameters, the parameters with it high.
pub open spec fn command_ops(opcode: u8, params: Seq<u8>) -> Seq<Op> {
    if params.len() == 0 {
        seq![Op::DcLow, Op::Write(seq![opcode])]
    } else {
        seq![Op::DcLow, Op::Write(seq![opcode]), Op::DcHigh, Op::Write(params)]
    }
}

/// The upper eight bits of a 16-bit value: the byte that goes first.
pub open spec fn high_byte(value: u16) -> u8 {
    (value / 256) as u8
}

/// The lower eight bits of a 16-bit value: the byte that goes second.
pub open spec fn low_byte(value: u16) -> u8 {
    (value % 256) as u8
}

/// Two 16-bit values, each high byte first.
pub open spec fn be_pair(first: u16, second: u16) -> Seq<u8> {
    seq![high_byte(first), low_byte(first), high_byte(second), low_byte(second)]
}

/// Pixels on the wire: two bytes each, high byte first.
pub open spec fn encode(pixels: Seq<u16>) -> Seq<u8> {
    Seq::new(
        2 * pixels.len(),
        |i: int| if i % 2 == 0 { high_byte(pixels[i / 2]) } else { low_byte(pixels[i / 2]) },
    )
}

/// `count` pixels of one colour on the wire.
pub open spec fn solid(color: u16, count: nat) -> Seq<u8> {
    Seq::new(2 * count, |i: int| if i % 2 == 0 { high_byte(color) } else { low_byte(color) })
}

/// The hardware reset: the reset line low for 10 ms, then high for 120 ms.
pub open spec fn reset_ops() -> Seq<Op> {
    seq![Op::RstLow, Op::Delay(10), Op::RstHigh, Op::Delay(120)]
}

/// Setting the address window to the rectangle with the inclusive corners
/// `(sx, sy)` and `(ex, ey)`, shifted by `(dx, dy)`: the row-address command
/// with the first axis, then the column-address command with the second.
pub open spec fn window_ops(dx: u16, dy: u16, sx: u16, sy: u16, ex: u16, ey: u16) -> Seq<Op> {
    command_ops(Instruction::RowAddressSet.code(), be_pair((sx + dx) as u16, (ex + dx) as u16))
        + command_ops(
        Instruction::ColumnAddressSet.code(),
        be_pair((sy + dy) as u16, (ey + dy) as u16),
    )
}

/// What opens a pixel stream after the window is set: the memory-write
/// command, then the select line high for the data phase.
pub open spec fn stream_start_ops() -> Seq<Op> {
    command_ops(Instruction::MemoryWrite.code(), Seq::empty()) + seq![Op::DcHigh]
}

/// The smaller of two numbers.
pub open spec fn least(a: nat, b: nat) -> nat {
    if a <= b { a } else { b }
}

/// The bus writes that send `total` pixels of one colour, at most
/// `chunk` pixels in each.
pub open spec fn fill_stream(total: nat, chunk: nat, color: u16) -> Seq<Op>
    decreases total,
{
    if total == 0 || chunk == 0 {
        Seq::empty()
    } else {
        seq![Op::Write(solid(color, least(total, chunk)))] + fill_stream(
            (total - least(total, chunk)) as nat,
            chunk,
            color,
        )
    }
}

/// The bus writes that send the given pixels, at most `chunk` pixels in each.
pub open spec fn area_stream(pixels: Seq<u16>, chunk: nat) -> Seq<Op>
    decreases pixels.len(),
{
    if pixels.len() == 0 || chunk == 0 {
        Seq::empty()
    } else {
        seq![Op::Write(encode(pixels.take(least(pixels.len(), chunk) as int)))] + area_stream(
            pixels.skip(least(pixels.len(), chunk) as int),
            chunk,
        )
    }
}

/// Filling a panel of `width` by `height` pixels with one colour through a
/// transfer buffer of `capacity` bytes.
pub open spec fn fill_script(
    dx: u16,
    dy: u16,
    width: u16,
    height: u16,
    capacity: nat,
    color: u16,
) -> Seq<Op> {
    window_ops(dx, dy, 0, 0, (width - 1) as u16, (height - 1) as u16) + stream_start_ops()
        + fill_stream((width * height) as nat, capacity / 2, color)
}

/// Writing the given pixels into the rectangle at `(x, y)` of `width` by
/// `height` through a transfer buffer of `capacity` bytes. The pixels are
/// sent as they are given, however many there are.
pub open spec fn area_script(
    dx: u16,
    dy: u16,
    x: u16,
    y: u16,
    width: u16,
    height: u16,
    capacity: nat,
    pixels: Seq<u16>,
) -> Seq<Op> {
    window_ops(dx, dy, x, y, (x + width - 1) as u16, (y + height - 1) as u16)
        + stream_start_ops() + area_stream(pixels, capacity / 2)
}

/// A copy of the first `len` bytes.
pub fn copy_prefix(src: &[u8], len: usize) -> (out: Vec<u8>)
    requires
        len <= src@.len(),
    ensures
        out@ == src@.take(len as int),
{
    let mut out: Vec<u8> = Vec::new();
    let mut i: usize = 0;
    while i < len
        invariant
            i <= len <= src@.len(),
            out@ == src@.take(i as int),
        decreases len - i,
    {
        out.push(src[i]);
        assert(out@ =~= src@.take(i + 1));
        i += 1;
    }
    assert(out@ =~= src@.take(len as int));
    out
}

/// The two wire bytes of a 16-bit value, high byte first.
pub fn split(value: u16) -> (bytes: (u8, u8))
    ensures
        bytes.0 == high_byte(value),
        bytes.1 == low_byte(value),
{
    ((value / 256) as u8, (value % 256) as u8)
}

impl Action {
    /// An action that asks for the same step.
    pub fn duplicate(&self) -> (copy: Action)
        ensures
            copy.op() == self.op(),
    {
        match self {
            Action::SetDcLow => Action::SetDcLow,
            Action::SetDcHigh => Action::SetDcHigh,
            Action::SetRstLow => Action::SetRstLow,
            Action::SetRstHigh => Action::SetRstHigh,
            Action::Delay(ms) => Action::Delay(*ms),
            Action::Write(bytes) => {
                let copy = copy_prefix(bytes.as_slice(), bytes.len());
                assert(copy@ =~= bytes@);
                Action::Write(copy)
            },
        }
    }
}

/// Appends the transaction of one command to a script.
pub fn push_command(script: &mut Vec<Action>, opcode: u8, params: &[u8])
    ensures
        ops_of(final(script)@) == ops_of(old(script)@) + command_ops(opcode, params@),
{
    script.push(Action::SetDcLow);
    let mut code: Vec<u8> = Vec::new();
    code.push(opcode);
    assert(code@ =~= seq![opcode]);
    script.push(Action::Write(code));
    if params.len() > 0 {
        script.push(Action::SetDcHigh);
        let copy = copy_prefix(params, params.len());
        assert(copy@ =~= params@);
        script.push(Action::Write(copy));
    }
    assert(ops_of(script@) =~= ops_of(old(script)@) + command_ops(opcode, params@));
}

/// Appends a command that has no parameters.
pub fn push_bare(script: &mut Vec<Action>, instruction: Instruction)
    ensures
        ops_of(final(script)@) == ops_of(old(script)@) + command_ops(
            instruction.code(),
            Seq::empty(),
        ),
{
    let params: [u8; 0] = [];
    assert(params@ =~= Seq::<u8>::empty());
    push_command(script, instruction.opcode(), &params);
}

/// Appends a command that has one parameter byte.
pub fn push_one(script: &mut Vec<Action>, instruction: Instruction, value: u8)
    ensures
        ops_of(final(script)@) == ops_of(old(script)@) + command_ops(
            instruction.code(),
            seq![value],
        ),
{
    let params: [u8; 1] = [value];
    assert(params@ =~= seq![value]);
    push_command(script, instruction.opcode(), &params);
}

/// Appends a single step that is no command.
pub fn push_step(script: &mut Vec<Action>, action: Action)
    ensures
        ops_of(final(script)@) == ops_of(old(script)@) + seq![action.op()],
{
    script.push(action);
    assert(ops_of(script@) =~= ops_of(old(script)@) + seq![action.op()]);
}

/// The script of the hardware reset.
pub fn reset_script() -> (script: Vec<Action>)
    ensures
        ops_of(script@) == reset_ops(),
{
    let mut script: Vec<Action> = Vec::new();
    script.push(Action::SetRstLow);
    script.push(Action::Delay(10));
    script.push(Action::SetRstHigh);
    script.push(Action::Delay(120));
    assert(ops_of(script@) =~= reset_ops());
    script
}

/// Appends the two commands that set the address window.
pub fn push_window(script: &mut Vec<Action>, dx: u16, dy: u16, sx: u16, sy: u16, ex: u16, ey: u16)
    requires
        sx + dx <= u16::MAX,
        ex + dx <= u16::MAX,
        sy + dy <= u16::MAX,
        ey + dy <= u16::MAX,
    ensures
        ops_of(final(script)@) == ops_of(old(script)@) + window_ops(dx, dy, sx, sy, ex, ey),
{
    let first = split(sx + dx);
    let last = split(ex + dx);
    let rows: [u8; 4] = [first.0, first.1, last.0, last.1];
    assert(rows@ =~= be_pair((sx + dx) as u16, (ex + dx) as u16));
    push_command(script, Instruction::RowAddressSet.opcode(), &rows);
    let first = split(sy + dy);
    let last = split(ey + dy);
    let columns: [u8; 4] = [first.0, first.1, last.0, last.1];
    assert(columns@ =~= be_pair((sy + dy) as u16, (ey + dy) as u16));
    push_command(script, Instruction::ColumnAddressSet.opcode(), &columns);
    assert(ops_of(script@) =~= ops_of(old(script)@) + window_ops(dx, dy, sx, sy, ex, ey));
}

/// Appends what opens a pixel stream.
pub fn push_stream_start(script: &mut Vec<Action>)
    ensures
        ops_of(final(script)@) == ops_of(old(script)@) + stream_start_ops(),
{
    push_bare(script, Instruction::MemoryWrite);
    push_step(script, Action::SetDcHigh);
    assert(ops_of(script@) =~= ops_of(old(script)@) + stream_start_ops());
}

} // verus!
