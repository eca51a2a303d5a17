//! What holds of the protocol's scripts, whatever the panel and the data.

use vstd::prelude::*;
use vstd::arithmetic::div_mod::{
    lemma_basic_div, lemma_div_plus_one, lemma_mod_self_0, lemma_mod_sub_multiples_vanish,
    lemma_small_mod,
};
use crate::config::{buffer_fits, Orientation, MAX_DATA_LEN};
use crate::instruction::Instruction;
use crate::program::{init_script, register_program, DISPLAY_FUNCTION_CONTROL_PARAMS};
use crate::wire::{
    Op, area_script, area_stream, be_pair, command_ops, encode, fill_script, fill_stream, least,
    reset_ops, solid, stream_start_ops, window_ops,
};

verus! {

/// The number of chunks of at most `chunk` that `total` falls into: the
/// quotient, rounded up.
pub open spec fn chunks_needed(total: nat, chunk: nat) -> nat {
    ((total + chunk - 1) / (chunk as int)) as nat
}

/// All the bytes that the bus writes of a script carry, in order.
pub open spec fn payload(ops: Seq<Op>) -> Seq<u8>
    decreases ops.len(),
{
    if ops.len() == 0 {
        Seq::empty()
    } else {
        (match ops[0] {
            Op::Write(bytes) => bytes,
            _ => Seq::empty(),
        }) + payload(ops.drop_first())
    }
}

/// The register program has 240 steps.
#[verifier::rlimit(60)]
pub proof fn lemma_register_program_len()
    ensures
        register_program().len() == 240,
{
    reveal(register_program);
}

/// The start-up program begins with the hardware reset, and has 257 steps
/// in all.
pub proof fn lemma_init_begins_with_reset(orientation: Orientation)
    ensures
        init_script(orientation).len() == 257,
        init_script(orientation).take(4) == reset_ops(),
{
    lemma_register_program_len();
    assert(init_script(orientation).take(4) =~= reset_ops());
}

/// The start-up program sets the memory-access-control register right after
/// the register program, to the one byte that stands for the configured
/// orientation.
pub proof fn lemma_init_sets_orientation(orientation: Orientation)
    ensures
        init_script(orientation).len() == 257,
        init_script(orientation).subrange(244, 248) == seq![
            Op::DcLow,
            Op::Write(seq![Instruction::MemoryAccessControl.code()]),
            Op::DcHigh,
            Op::Write(seq![orientation.code()]),
        ],
{
    lemma_register_program_len();
    let head = reset_ops() + register_program();
    let madctl = command_ops(Instruction::MemoryAccessControl.code(), seq![orientation.code()]);
    assert(head.len() == 244);
    assert(madctl.len() == 4);
    assert((head + madctl).subrange(244, 248) =~= madctl);
    assert(init_script(orientation).subrange(244, 248) =~= madctl);
}

/// The start-up program ends with sleep-out, a wait of 200 ms and
/// display-on, in this order, each command without parameters.
pub proof fn lemma_init_ends_awake(orientation: Orientation)
    ensures
        init_script(orientation).len() >= 5,
        init_script(orientation).skip(init_script(orientation).len() - 5) == seq![
            Op::DcLow,
            Op::Write(seq![Instruction::SleepOut.code()]),
            Op::Delay(200),
            Op::DcLow,
            Op::Write(seq![Instruction::DisplayOn.code()]),
        ],
{
    let head = reset_ops() + register_program() + command_ops(
        Instruction::MemoryAccessControl.code(),
        seq![orientation.code()],
    ) + command_ops(Instruction::DisplayFunctionControl.code(), DISPLAY_FUNCTION_CONTROL_PARAMS@);
    let tail = seq![
        Op::DcLow,
        Op::Write(seq![Instruction::SleepOut.code()]),
        Op::Delay(200),
        Op::DcLow,
        Op::Write(seq![Instruction::DisplayOn.code()]),
    ];
    assert(init_script(orientation) =~= head + tail);
    assert((head + tail).skip((head + tail).len() - 5) =~= tail);
}

/// A command without parameters is the select line low and one bus write of
/// the opcode: the select line is not driven high.
pub proof fn lemma_bare_command(opcode: u8)
    ensures
        command_ops(opcode, Seq::empty()) == seq![Op::DcLow, Op::Write(seq![opcode])],
        forall|i: int|
            0 <= i < command_ops(opcode, Seq::empty()).len() ==> command_ops(
                opcode,
                Seq::empty(),
            )[i] != Op::DcHigh,
{
}

/// A command with parameters sends them as one bus write after the opcode,
/// with the select line high.
pub proof fn lemma_command_with_params(opcode: u8, params: Seq<u8>)
    requires
        params.len() > 0,
    ensures
        command_ops(opcode, params) == seq![
            Op::DcLow,
            Op::Write(seq![opcode]),
            Op::DcHigh,
            Op::Write(params),
        ],
{
}

/// The four bytes of an address register hold its two values big-endian:
/// each is its first byte times 256 plus its second.
pub proof fn lemma_be_pair_decodes(first: u16, second: u16)
    ensures
        be_pair(first, second).len() == 4,
        be_pair(first, second)[0] * 256 + be_pair(first, second)[1] == first,
        be_pair(first, second)[2] * 256 + be_pair(first, second)[3] == second,
{
}

/// Setting the window writes the row-address register with the first and
/// last column, then the column-address register with the first and last
/// row, each moved by the panel's offset and nothing else done to it.
pub proof fn lemma_window_ops_shape(dx: u16, dy: u16, sx: u16, sy: u16, ex: u16, ey: u16)
    requires
        sx + dx <= u16::MAX,
        ex + dx <= u16::MAX,
        sy + dy <= u16::MAX,
        ey + dy <= u16::MAX,
    ensures
        window_ops(dx, dy, sx, sy, ex, ey) == seq![
            Op::DcLow,
            Op::Write(seq![Instruction::RowAddressSet.code()]),
            Op::DcHigh,
            Op::Write(be_pair((sx + dx) as u16, (ex + dx) as u16)),
            Op::DcLow,
            Op::Write(seq![Instruction::ColumnAddressSet.code()]),
            Op::DcHigh,
            Op::Write(be_pair((sy + dy) as u16, (ey + dy) as u16)),
        ],
        (sx + dx) as u16 == sx + dx,
        (ex + dx) as u16 == ex + dx,
        (sy + dy) as u16 == sy + dy,
        (ey + dy) as u16 == ey + dy,
{
    assert(window_ops(dx, dy, sx, sy, ex, ey) =~= seq![
        Op::DcLow,
        Op::Write(seq![Instruction::RowAddressSet.code()]),
        Op::DcHigh,
        Op::Write(be_pair((sx + dx) as u16, (ex + dx) as u16)),
        Op::DcLow,
        Op::Write(seq![Instruction::ColumnAddressSet.code()]),
        Op::DcHigh,
        Op::Write(be_pair((sy + dy) as u16, (ey + dy) as u16)),
    ]);
}

/// A transfer buffer that the driver works with carries at least one pixel
/// in a bus write, and never more than `MAX_DATA_LEN`.
pub proof fn lemma_chunk_within_limit(capacity: nat)
    requires
        buffer_fits(capacity),
    ensures
        0 < capacity / 2 <= MAX_DATA_LEN,
        2 * (capacity / 2) == capacity,
{
}

proof fn lemma_chunks_step(total: nat, chunk: nat)
    requires
        chunk > 0,
    ensures
        total == 0 ==> chunks_needed(total, chunk) == 0,
        0 < total <= chunk ==> chunks_needed(total, chunk) == 1,
        total > chunk ==> chunks_needed(total, chunk) == chunks_needed((total - chunk) as nat, chunk)
            + 1,
{
    let d = chunk as int;
    if total == 0 {
        lemma_basic_div(chunk - 1, d);
    } else {
        lemma_div_plus_one(total - 1, d);
        assert(d + (total - 1) == total + chunk - 1);
        if total <= chunk {
            lemma_basic_div(total - 1, d);
        } else {
            assert(total - 1 == (total - chunk) + chunk - 1);
            assert((total - 1) / d >= 0) by (nonlinear_arith)
                requires
                    total >= 1,
                    d > 0,
            ;
        }
    }
}

/// Filling sends the pixels in as many bus writes as the transfer buffer
/// makes necessary: the pixel count divided by the pixels per chunk, rounded
/// up.
pub proof fn lemma_fill_stream_count(total: nat, chunk: nat, color: u16)
    requires
        chunk > 0,
    ensures
        fill_stream(total, chunk, color).len() == chunks_needed(total, chunk),
    decreases total,
{
    lemma_chunks_step(total, chunk);
    if total > chunk {
        lemma_fill_stream_count((total - chunk) as nat, chunk, color);
    } else if total > 0 {
        assert(fill_stream(0, chunk, color).len() == 0);
    }
}

/// Each bus write of a fill carries a full chunk of the colour, but for the
/// last, which carries what is left.
pub proof fn lemma_fill_stream_chunk(total: nat, chunk: nat, color: u16, i: int)
    requires
        chunk > 0,
        0 <= i < chunks_needed(total, chunk),
    ensures
        i < fill_stream(total, chunk, color).len(),
        i * chunk < total,
        fill_stream(total, chunk, color)[i] == Op::Write(
            solid(color, least((total - i * chunk) as nat, chunk)),
        ),
    decreases total,
{
    lemma_fill_stream_count(total, chunk, color);
    lemma_chunks_step(total, chunk);
    if i > 0 {
        let rest = (total - chunk) as nat;
        lemma_fill_stream_chunk(rest, chunk, color, i - 1);
        assert((i - 1) * chunk + chunk == i * chunk) by (nonlinear_arith);
        assert(fill_stream(total, chunk, color)[i] == fill_stream(rest, chunk, color)[i - 1]);
    } else {
        assert(0 * chunk == 0) by (nonlinear_arith);
    }
}

/// Where the bytes of a fill are no multiple of the transfer buffer's size,
/// the last bus write carries the remainder, not a full buffer.
pub proof fn lemma_fill_last_chunk(total: nat, capacity: nat, color: u16)
    requires
        capacity > 0,
        capacity % 2 == 0,
        (2 * total) % capacity != 0,
    ensures
        fill_stream(total, capacity / 2, color).len() > 0,
        fill_stream(total, capacity / 2, color).last() matches Op::Write(bytes) && bytes.len() == (2
            * total) % capacity,
    decreases total,
{
    let chunk = capacity / 2;
    assert(capacity == 2 * chunk);
    if total == 0 {
        lemma_small_mod(0, capacity);
    } else if total <= chunk {
        assert(fill_stream(0, chunk, color).len() == 0);
        assert(fill_stream(total, chunk, color) =~= seq![Op::Write(solid(color, total))]);
        if total < chunk {
            lemma_small_mod(2 * total, capacity);
        } else {
            lemma_mod_self_0(capacity as int);
        }
    } else {
        let rest = (total - chunk) as nat;
        lemma_mod_sub_multiples_vanish((2 * total) as int, capacity as int);
        assert(-(capacity as int) + 2 * total == 2 * rest);
        lemma_fill_last_chunk(rest, capacity, color);
        let tail = fill_stream(rest, chunk, color);
        assert(fill_stream(total, chunk, color) =~= seq![Op::Write(solid(color, chunk))] + tail);
        assert((seq![Op::Write(solid(color, chunk))] + tail).last() == tail.last());
    }
}

proof fn lemma_payload_of_write(bytes: Seq<u8>, rest: Seq<Op>)
    ensures
        payload(seq![Op::Write(bytes)] + rest) == bytes + payload(rest),
{
    let ops = seq![Op::Write(bytes)] + rest;
    assert(ops.drop_first() =~= rest);
    assert(ops[0] == Op::Write(bytes));
}

/// The bus writes of a fill carry the colour once for each pixel, high byte
/// first, and nothing else: twice as many bytes as there are pixels.
pub proof fn lemma_fill_stream_payload(total: nat, chunk: nat, color: u16)
    requires
        chunk > 0,
    ensures
        payload(fill_stream(total, chunk, color)) == solid(color, total),
        payload(fill_stream(total, chunk, color)).len() == 2 * total,
    decreases total,
{
    if total == 0 {
        assert(payload(fill_stream(total, chunk, color)) =~= solid(color, total));
    } else {
        let n = least(total, chunk);
        let rest = (total - n) as nat;
        lemma_fill_stream_payload(rest, chunk, color);
        lemma_payload_of_write(solid(color, n), fill_stream(rest, chunk, color));
        assert(solid(color, n) + solid(color, rest) =~= solid(color, total));
    }
}

/// Writing an area sends exactly the pixels that were given, each as two
/// bytes, high byte first, in the order given: as many as there are, whatever
/// the rectangle's size.
pub proof fn lemma_area_stream_payload(pixels: Seq<u16>, chunk: nat)
    requires
        chunk > 0,
    ensures
        payload(area_stream(pixels, chunk)) == encode(pixels),
        payload(area_stream(pixels, chunk)).len() == 2 * pixels.len(),
    decreases pixels.len(),
{
    if pixels.len() == 0 {
        assert(payload(area_stream(pixels, chunk)) =~= encode(pixels));
    } else {
        let n = least(pixels.len(), chunk) as int;
        let front = pixels.take(n);
        let back = pixels.skip(n);
        lemma_area_stream_payload(back, chunk);
        lemma_payload_of_write(encode(front), area_stream(back, chunk));
        assert(encode(front) + encode(back) =~= encode(pixels));
    }
}

/// Writing an area takes as many bus writes as the transfer buffer makes
/// necessary for the pixels given.
pub proof fn lemma_area_stream_count(pixels: Seq<u16>, chunk: nat)
    requires
        chunk > 0,
    ensures
        area_stream(pixels, chunk).len() == chunks_needed(pixels.len(), chunk),
    decreases pixels.len(),
{
    lemma_chunks_step(pixels.len(), chunk);
    if pixels.len() > chunk {
        lemma_area_stream_count(pixels.skip(chunk as int), chunk);
    } else if pixels.len() > 0 {
        assert(area_stream(pixels.skip(pixels.len() as int), chunk).len() == 0);
    }
}

/// A fill is the window over the whole panel and the opening of the stream,
/// eleven steps, and then nothing but the pixel writes: as many as the
/// transfer buffer makes necessary, carrying two bytes for each pixel of the
/// panel.
pub proof fn lemma_fill_script_data(
    dx: u16,
    dy: u16,
    width: u16,
    height: u16,
    capacity: nat,
    color: u16,
)
    requires
        capacity >= 2,
    ensures
        fill_script(dx, dy, width, height, capacity, color).take(11) == window_ops(
            dx,
            dy,
            0,
            0,
            (width - 1) as u16,
            (height - 1) as u16,
        ) + stream_start_ops(),
        fill_script(dx, dy, width, height, capacity, color).skip(11) == fill_stream(
            (width * height) as nat,
            capacity / 2,
            color,
        ),
        fill_script(dx, dy, width, height, capacity, color).len() == 11 + chunks_needed(
            (width * height) as nat,
            capacity / 2,
        ),
        payload(fill_script(dx, dy, width, height, capacity, color).skip(11)) == solid(
            color,
            (width * height) as nat,
        ),
        payload(fill_script(dx, dy, width, height, capacity, color).skip(11)).len() == 2 * (width
            * height),
{
    let head = window_ops(dx, dy, 0, 0, (width - 1) as u16, (height - 1) as u16)
        + stream_start_ops();
    let tail = fill_stream((width * height) as nat, capacity / 2, color);
    assert(head.len() == 11);
    assert((head + tail).take(11) =~= head);
    assert((head + tail).skip(11) =~= tail);
    lemma_fill_stream_count((width * height) as nat, capacity / 2, color);
    lemma_fill_stream_payload((width * height) as nat, capacity / 2, color);
}

/// An area write is the window over the rectangle and the opening of the
/// stream, eleven steps, and then nothing but the pixel writes, which carry
/// the pixels given and no others.
pub proof fn lemma_area_script_data(
    dx: u16,
    dy: u16,
    x: u16,
    y: u16,
    width: u16,
    height: u16,
    capacity: nat,
    pixels: Seq<u16>,
)
    requires
        capacity >= 2,
    ensures
        area_script(dx, dy, x, y, width, height, capacity, pixels).skip(11) == area_stream(
            pixels,
            capacity / 2,
        ),
        area_script(dx, dy, x, y, width, height, capacity, pixels).len() == 11 + chunks_needed(
            pixels.len(),
            capacity / 2,
        ),
        payload(area_script(dx, dy, x, y, width, height, capacity, pixels).skip(11)) == encode(
            pixels,
        ),
{
    let head = window_ops(dx, dy, x, y, (x + width - 1) as u16, (y + height - 1) as u16)
        + stream_start_ops();
    let tail = area_stream(pixels, capacity / 2);
    assert(head.len() == 11);
    assert((head + tail).skip(11) =~= tail);
    lemma_area_stream_count(pixels, capacity / 2);
    lemma_area_stream_payload(pixels, capacity / 2);
}

/// Filling sends what writing an area of as many pixels of the one colour
/// would send, bus write for bus write.
pub proof fn lemma_fill_is_uniform_area(total: nat, chunk: nat, color: u16)
    ensures
        fill_stream(total, chunk, color) == area_stream(Seq::new(total, |i: int| color), chunk),
    decreases total,
{
    let pixels = Seq::new(total, |i: int| color);
    if total > 0 && chunk > 0 {
        let n = least(total, chunk);
        let rest = (total - n) as nat;
        lemma_fill_is_uniform_area(rest, chunk, color);
        assert(pixels.skip(n as int) =~= Seq::new(rest, |i: int| color));
        assert(encode(pixels.take(n as int)) =~= solid(color, n));
    }
}

/// A pixel goes out as its upper byte, then its lower byte.
pub proof fn lemma_encode_pixel(pixel: u16)
    ensures
        encode(seq![pixel]) == seq![(pixel / 256) as u8, (pixel % 256) as u8],
{
    assert(encode(seq![pixel]) =~= seq![(pixel / 256) as u8, (pixel % 256) as u8]);
}

} // verus!
