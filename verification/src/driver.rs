//! The driver: a step machine over the wire protocol.
//!
//! An operation is started by the method that bears its name, which hands
//! out the first action. The host carries each action out and reports the
//! outcome to `resume`, which hands out the next one, until the operation
//! has finished or failed.

use vstd::prelude::*;
use embedded_graphics_core::pixelcolor::Rgb565;
use crate::color::{raw_of, raw_pixels, raw_value};
use crate::config::{buffer_fits, Config};
use crate::error::{Error, Event};
use crate::instruction::Instruction;
use crate::program::{build_init, init_script};
use crate::wire::{
    Action, Op, area_script, area_stream, command_ops, copy_prefix, encode,
    fill_script, fill_stream, high_byte, least, low_byte, ops_of, push_command, push_stream_start,
    push_window, reset_ops, reset_script, solid, split, window_ops,
};

verus! {

/// What follows the scripted steps of the running operation.
enum Stream {
    Nothing,
    Fill,
    Area,
}

/// The driver of one panel.
pub struct GC9D01<BusE> {
    config: Config,
    buffer: Vec<u8>,
    head: Vec<Action>,
    pc: usize,
    stream: Stream,
    color: u16,
    left: u64,
    data: Vec<u16>,
    cursor: usize,
    lenient: bool,
    first_bus_error: Option<BusE>,
}

/// Writes one colour over the whole transfer buffer.
fn paint(buffer: &mut Vec<u8>, color: u16)
    requires
        old(buffer)@.len() % 2 == 0,
    ensures
        final(buffer)@ == solid(color, old(buffer)@.len() / 2),
{
    let bytes = split(color);
    let mut i: usize = 0;
    while i < buffer.len()
        invariant
            buffer@.len() == old(buffer)@.len(),
            buffer@.len() % 2 == 0,
            i <= buffer@.len(),
            i % 2 == 0,
            bytes.0 == high_byte(color),
            bytes.1 == low_byte(color),
            forall|j: int| 0 <= j < i ==> buffer@[j] == solid(color, buffer@.len() / 2)[j],
        decreases buffer@.len() - i,
    {
        buffer.set(i, bytes.0);
        buffer.set(i + 1, bytes.1);
        i += 2;
    }
    assert(buffer@ =~= solid(color, old(buffer)@.len() / 2));
}

/// Encodes `count` pixels, from `start` on, into the front of the transfer
/// buffer.
fn load(buffer: &mut Vec<u8>, data: &Vec<u16>, start: usize, count: usize)
    requires
        start + count <= data@.len(),
        2 * count <= old(buffer)@.len(),
    ensures
        final(buffer)@.len() == old(buffer)@.len(),
        final(buffer)@.take(2 * count) == encode(data@.skip(start as int).take(count as int)),
{
    let ghost pixels = data@.skip(start as int).take(count as int);
    let given: usize = data.len();
    let room: usize = buffer.len();
    let mut k: usize = 0;
    while k < count
        invariant
            buffer@.len() == old(buffer)@.len(),
            k <= count,
            start + count <= given == data@.len(),
            2 * count <= room == buffer@.len(),
            pixels == data@.skip(start as int).take(count as int),
            forall|j: int| 0 <= j < 2 * k ==> buffer@[j] == encode(pixels)[j],
        decreases count - k,
    {
        let bytes = split(data[start + k]);
        assert(pixels[k as int] == data@[start + k]);
        buffer.set(2 * k, bytes.0);
        buffer.set(2 * k + 1, bytes.1);
        k += 1;
    }
    assert(buffer@.take(2 * count) =~= encode(pixels));
}

/// A copy of the pixels.
fn copy_pixels(src: &[u16]) -> (out: Vec<u16>)
    ensures
        out@ == src@,
{
    let mut out: Vec<u16> = Vec::new();
    let mut i: usize = 0;
    while i < src.len()
        invariant
            i <= src@.len(),
            out@ == src@.take(i as int),
        decreases src@.len() - i,
    {
        out.push(src[i]);
        assert(out@ =~= src@.take(i + 1));
        i += 1;
    }
    assert(out@ =~= src@);
    out
}

impl<BusE> GC9D01<BusE> {
    /// The driver's fields fit together.
    pub closed spec fn wf(&self) -> bool {
        &&& self.config.valid()
        &&& buffer_fits(self.buffer@.len())
        &&& self.pc <= self.head@.len()
        &&& self.cursor <= self.data@.len()
        &&& (self.stream is Fill ==> self.buffer@ == solid(self.color, self.buffer@.len() / 2))
    }

    /// The panel's configuration.
    pub closed spec fn panel(&self) -> Config {
        self.config
    }

    /// The size of the transfer buffer in bytes.
    pub closed spec fn capacity(&self) -> nat {
        self.buffer@.len()
    }

    closed spec fn stream_rest(&self) -> Seq<Op> {
        match self.stream {
            Stream::Nothing => Seq::empty(),
            Stream::Fill => fill_stream(self.left as nat, self.buffer@.len() / 2, self.color),
            Stream::Area => area_stream(
                self.data@.skip(self.cursor as int),
                self.buffer@.len() / 2,
            ),
        }
    }

    /// The steps of the running operation that have not been handed out yet,
    /// in order.
    pub closed spec fn pending(&self) -> Seq<Op> {
        ops_of(self.head@.skip(self.pc as int)) + self.stream_rest()
    }

    /// The first bus failure that was reported and put aside.
    pub closed spec fn failure(&self) -> Option<BusE> {
        self.first_bus_error
    }

    /// Whether a bus failure of the action handed out last is put aside
    /// instead of ending the operation.
    pub closed spec fn lenient(&self) -> bool {
        self.lenient
    }

    /// How many of the pending steps, counted from the end, are bus writes
    /// whose failure is put aside.
    pub closed spec fn deferring(&self) -> nat {
        match self.stream {
            Stream::Area => self.stream_rest().len(),
            _ => 0,
        }
    }

    /// No operation is running.
    pub open spec fn idle(&self) -> bool {
        &&& self.pending().len() == 0
        &&& self.failure() is None
        &&& !self.lenient()
        &&& self.deferring() == 0
    }

    /// Whether this outcome ends the running operation at once.
    pub open spec fn aborts<PinE>(&self, event: Event<BusE, PinE>) -> bool {
        match event {
            Event::Done => false,
            Event::BusFailed(_) => !self.lenient(),
            Event::PinFailed(_) => true,
        }
    }

    /// The bus failure that is put aside once this outcome is taken in: the
    /// first one stays.
    pub open spec fn carried<PinE>(&self, event: Event<BusE, PinE>) -> Option<BusE> {
        match event {
            Event::BusFailed(e) => if self.failure() is None {
                Some(e)
            } else {
                self.failure()
            },
            _ => self.failure(),
        }
    }

    /// A driver for a panel with the given configuration, with `buffer` as
    /// its transfer buffer. No operation is running.
    pub fn new(config: Config, buffer: Vec<u8>) -> (driver: Self)
        requires
            config.valid(),
            buffer_fits(buffer@.len()),
        ensures
            driver.wf(),
            driver.idle(),
            driver.panel() == config,
            driver.capacity() == buffer@.len(),
    {
        GC9D01 {
            config,
            buffer,
            head: Vec::new(),
            pc: 0,
            stream: Stream::Nothing,
            color: 0,
            left: 0,
            data: Vec::new(),
            cursor: 0,
            lenient: false,
            first_bus_error: None,
        }
    }

    /// The panel's configuration.
    pub fn config(&self) -> (config: Config)
        ensures
            config == self.panel(),
    {
        self.config
    }

    /// The size of the transfer buffer in bytes.
    pub fn buffer_len(&self) -> (len: usize)
        ensures
            len == self.capacity(),
    {
        self.buffer.len()
    }

    /// Drops whatever is running.
    fn halt(&mut self)
        requires
            old(self).wf(),
        ensures
            final(self).wf(),
            final(self).idle(),
            final(self).panel() == old(self).panel(),
            final(self).capacity() == old(self).capacity(),
            final(self).head@.len() == 0,
            final(self).pc == 0,
            final(self).stream is Nothing,
            final(self).first_bus_error is None,
            final(self).buffer == old(self).buffer,
            final(self).config == old(self).config,
    {
        self.head = Vec::new();
        self.pc = 0;
        self.stream = Stream::Nothing;
        self.data = Vec::new();
        self.cursor = 0;
        self.lenient = false;
        self.first_bus_error = None;
    }

    /// Installs the scripted steps of a new operation.
    fn load_script(&mut self, head: Vec<Action>)
        requires
            old(self).wf(),
        ensures
            final(self).wf(),
            final(self).pending() == ops_of(head@),
            final(self).failure() is None,
            final(self).deferring() == 0,
            final(self).panel() == old(self).panel(),
            final(self).capacity() == old(self).capacity(),
            final(self).head == head,
            final(self).pc == 0,
            final(self).stream is Nothing,
            final(self).buffer == old(self).buffer,
            final(self).config == old(self).config,
    {
        self.halt();
        self.head = head;
        assert(self.head@.skip(0) =~= self.head@);
        assert(ops_of(head@) + Seq::empty() =~= ops_of(head@));
    }

    /// Hands out the next pending step, if there is one.
    fn next(&mut self) -> (step: Option<Action>)
        requires
            old(self).wf(),
        ensures
            final(self).wf(),
            final(self).panel() == old(self).panel(),
            final(self).capacity() == old(self).capacity(),
            final(self).failure() == old(self).failure(),
            step is None <==> old(self).pending().len() == 0,
            step is None ==> final(self).pending() == old(self).pending(),
            step matches Some(action) ==> {
                &&& action.op() == old(self).pending()[0]
                &&& final(self).pending() == old(self).pending().drop_first()
                &&& final(self).lenient() == (old(self).pending().len() <= old(self).deferring())
                &&& final(self).deferring() == least(
                    old(self).deferring(),
                    final(self).pending().len(),
                )
            },
    {
        let chunk: usize = self.buffer.len() / 2;
        if self.pc < self.head.len() {
            let action = self.head[self.pc].duplicate();
            proof {
                let rest = self.head@.skip(self.pc as int);
                assert(rest[0] == self.head@[self.pc as int]);
                assert(ops_of(rest)[0] == rest[0].op());
                assert(ops_of(self.head@.skip(self.pc + 1)) =~= ops_of(rest).drop_first());
                assert(ops_of(self.head@.skip(self.pc + 1)) + self.stream_rest() =~= (ops_of(rest)
                    + self.stream_rest()).drop_first());
            }
            self.pc += 1;
            self.lenient = false;
            Some(action)
        } else {
            assert(ops_of(self.head@.skip(self.pc as int)) =~= Seq::<Op>::empty());
            assert(self.pending() =~= self.stream_rest());
            match self.stream {
                Stream::Nothing => None,
                Stream::Fill => {
                    if self.left == 0 {
                        None
                    } else {
                        let count: usize = if self.left < chunk as u64 {
                            self.left as usize
                        } else {
                            chunk
                        };
                        let bytes = copy_prefix(self.buffer.as_slice(), 2 * count);
                        assert(bytes@ =~= solid(self.color, count as nat));
                        self.left = self.left - count as u64;
                        proof {
                            let rest = fill_stream(self.left as nat, chunk as nat, self.color);
                            assert((seq![Op::Write(bytes@)] + rest).drop_first() =~= rest);
                            assert(ops_of(self.head@.skip(self.pc as int)) + rest =~= rest);
                        }
                        self.lenient = false;
                        Some(Action::Write(bytes))
                    }
                },
                Stream::Area => {
                    if self.cursor >= self.data.len() {
                        assert(self.data@.skip(self.cursor as int).len() == 0);
                        None
                    } else {
                        let rest_len: usize = self.data.len() - self.cursor;
                        let count: usize = if rest_len < chunk { rest_len } else { chunk };
                        load(&mut self.buffer, &self.data, self.cursor, count);
                        let bytes = copy_prefix(self.buffer.as_slice(), 2 * count);
                        proof {
                            let pixels = self.data@.skip(self.cursor as int);
                            assert(pixels.len() == rest_len);
                            let rest = area_stream(pixels.skip(count as int), chunk as nat);
                            assert(pixels.skip(count as int) =~= self.data@.skip(
                                self.cursor + count,
                            ));
                            assert((seq![Op::Write(bytes@)] + rest).drop_first() =~= rest);
                            assert(ops_of(self.head@.skip(self.pc as int)) + rest =~= rest);
                        }
                        self.cursor = self.cursor + count;
                        self.lenient = true;
                        Some(Action::Write(bytes))
                    }
                },
            }
        }
    }

    /// Hands out the first step of an operation that was just installed.
    fn first_step(&mut self) -> (first: Action)
        requires
            old(self).wf(),
            old(self).pc == 0,
            old(self).head@.len() > 0,
        ensures
            final(self).wf(),
            final(self).panel() == old(self).panel(),
            final(self).capacity() == old(self).capacity(),
            final(self).failure() == old(self).failure(),
            seq![first.op()] + final(self).pending() == old(self).pending(),
            !final(self).lenient(),
            final(self).deferring() == old(self).deferring(),
    {
        let first = self.head[0].duplicate();
        self.pc = 1;
        self.lenient = false;
        assert(seq![first.op()] + self.pending() =~= old(self).pending());
        first
    }

    /// Starts the hardware reset: the reset line low, 10 ms, the reset line
    /// high, 120 ms.
    pub fn reset(&mut self) -> (first: Action)
        requires
            old(self).wf(),
        ensures
            final(self).wf(),
            final(self).panel() == old(self).panel(),
            final(self).capacity() == old(self).capacity(),
            final(self).failure() is None,
            !final(self).lenient(),
            final(self).deferring() == 0,
            seq![first.op()] + final(self).pending() == reset_ops(),
    {
        let script = reset_script();
        assert(ops_of(script@).len() == script@.len());
        self.load_script(script);
        self.first_step()
    }

    /// Starts the start-up program: the hardware reset, the register
    /// program, sleep-out, 200 ms, display-on.
    pub fn init(&mut self) -> (first: Action)
        requires
            old(self).wf(),
        ensures
            final(self).wf(),
            final(self).panel() == old(self).panel(),
            final(self).capacity() == old(self).capacity(),
            final(self).failure() is None,
            !final(self).lenient(),
            final(self).deferring() == 0,
            seq![first.op()] + final(self).pending() == init_script(old(self).panel().orientation),
    {
        let script = build_init(self.config.orientation);
        assert(ops_of(script@).len() == script@.len());
        self.load_script(script);
        self.first_step()
    }

    /// Starts one command: the opcode with the select line low, then the
    /// parameters, if there are any, with the select line high.
    pub fn write_command(&mut self, instruction: Instruction, params: &[u8]) -> (first: Action)
        requires
            old(self).wf(),
        ensures
            final(self).wf(),
            final(self).panel() == old(self).panel(),
            final(self).capacity() == old(self).capacity(),
            final(self).failure() is None,
            !final(self).lenient(),
            final(self).deferring() == 0,
            seq![first.op()] + final(self).pending() == command_ops(instruction.code(), params@),
    {
        let mut script: Vec<Action> = Vec::new();
        push_command(&mut script, instruction.opcode(), params);
        assert(ops_of(Seq::<Action>::empty()) + command_ops(instruction.code(), params@)
            =~= command_ops(instruction.code(), params@));
        assert(ops_of(script@).len() == script@.len());
        self.load_script(script);
        self.first_step()
    }

    /// Starts setting the address window to the rectangle with the inclusive
    /// corners `(sx, sy)` and `(ex, ey)`. The rectangle is not held against
    /// the panel's size.
    pub fn set_address_window(&mut self, sx: u16, sy: u16, ex: u16, ey: u16) -> (first: Action)
        requires
            old(self).wf(),
            old(self).panel().reaches(sx, sy, ex, ey),
        ensures
            final(self).wf(),
            final(self).panel() == old(self).panel(),
            final(self).capacity() == old(self).capacity(),
            final(self).failure() is None,
            !final(self).lenient(),
            final(self).deferring() == 0,
            seq![first.op()] + final(self).pending() == window_ops(
                old(self).panel().dx,
                old(self).panel().dy,
                sx,
                sy,
                ex,
                ey,
            ),
    {
        let mut script: Vec<Action> = Vec::new();
        push_window(&mut script, self.config.dx, self.config.dy, sx, sy, ex, ey);
        assert(ops_of(Seq::<Action>::empty()) + window_ops(
            self.config.dx,
            self.config.dy,
            sx,
            sy,
            ex,
            ey,
        ) =~= window_ops(self.config.dx, self.config.dy, sx, sy, ex, ey));
        assert(ops_of(script@).len() == script@.len());
        self.load_script(script);
        self.first_step()
    }

    /// Starts filling the whole panel with one colour. The first bus failure
    /// ends the operation.
    pub fn fill_color(&mut self, color: Rgb565) -> (first: Action)
        requires
            old(self).wf(),
            old(self).panel().addressable(),
        ensures
            final(self).wf(),
            final(self).panel() == old(self).panel(),
            final(self).capacity() == old(self).capacity(),
            final(self).failure() is None,
            !final(self).lenient(),
            final(self).deferring() == 0,
            seq![first.op()] + final(self).pending() == fill_script(
                old(self).panel().dx,
                old(self).panel().dy,
                old(self).panel().width,
                old(self).panel().height,
                old(self).capacity(),
                raw_value(color),
            ),
    {
        let raw = raw_of(&color);
        self.fill_color_raw(raw)
    }

    /// Starts filling the whole panel with one colour, given as its raw
    /// 16-bit value. The first bus failure ends the operation.
    pub fn fill_color_raw(&mut self, color: u16) -> (first: Action)
        requires
            old(self).wf(),
            old(self).panel().addressable(),
        ensures
            final(self).wf(),
            final(self).panel() == old(self).panel(),
            final(self).capacity() == old(self).capacity(),
            final(self).failure() is None,
            !final(self).lenient(),
            final(self).deferring() == 0,
            seq![first.op()] + final(self).pending() == fill_script(
                old(self).panel().dx,
                old(self).panel().dy,
                old(self).panel().width,
                old(self).panel().height,
                old(self).capacity(),
                color,
            ),
    {
        let config = self.config;
        let mut script: Vec<Action> = Vec::new();
        push_window(&mut script, config.dx, config.dy, 0, 0, config.width - 1, config.height - 1);
        push_stream_start(&mut script);
        assert(ops_of(script@).len() == script@.len());
        self.load_script(script);
        paint(&mut self.buffer, color);
        assert(config.width * config.height <= 0xFFFF * 0xFFFF) by (nonlinear_arith)
            requires
                config.width <= 0xFFFF,
                config.height <= 0xFFFF,
        ;
        self.color = color;
        self.left = config.width as u64 * config.height as u64;
        self.stream = Stream::Fill;
        assert(self.head@.skip(0) =~= self.head@);
        assert(self.pending() =~= fill_script(
            config.dx,
            config.dy,
            config.width,
            config.height,
            old(self).capacity(),
            color,
        ));
        self.first_step()
    }

    /// Starts writing the given pixels into the rectangle at `(x, y)` of
    /// `width` by `height`. All the pixels given are sent, however many the
    /// rectangle holds. A bus failure while the pixels are sent is put aside,
    /// and the first one is returned once all of them have been tried.
    pub fn write_area(
        &mut self,
        x: u16,
        y: u16,
        width: u16,
        height: u16,
        data: &[Rgb565],
    ) -> (first: Action)
        requires
            old(self).wf(),
            old(self).panel().holds_area(x, y, width, height),
        ensures
            final(self).wf(),
            final(self).panel() == old(self).panel(),
            final(self).capacity() == old(self).capacity(),
            final(self).failure() is None,
            !final(self).lenient(),
            final(self).deferring() == area_stream(
                data@.map_values(|c: Rgb565| raw_value(c)),
                old(self).capacity() / 2,
            ).len(),
            seq![first.op()] + final(self).pending() == area_script(
                old(self).panel().dx,
                old(self).panel().dy,
                x,
                y,
                width,
                height,
                old(self).capacity(),
                data@.map_values(|c: Rgb565| raw_value(c)),
            ),
    {
        let raw = raw_pixels(data);
        assert(raw@ =~= data@.map_values(|c: Rgb565| raw_value(c)));
        self.write_area_raw(x, y, width, height, raw.as_slice())
    }

    /// Starts writing the given pixels, each as its raw 16-bit value, into
    /// the rectangle at `(x, y)` of `width` by `height`. All the pixels given
    /// are sent, however many the rectangle holds. A bus failure while the
    /// pixels are sent is put aside, and the first one is returned once all
    /// of them have been tried.
    pub fn write_area_raw(
        &mut self,
        x: u16,
        y: u16,
        width: u16,
        height: u16,
        data: &[u16],
    ) -> (first: Action)
        requires
            old(self).wf(),
            old(self).panel().holds_area(x, y, width, height),
        ensures
            final(self).wf(),
            final(self).panel() == old(self).panel(),
            final(self).capacity() == old(self).capacity(),
            final(self).failure() is None,
            !final(self).lenient(),
            final(self).deferring() == area_stream(data@, old(self).capacity() / 2).len(),
            seq![first.op()] + final(self).pending() == area_script(
                old(self).panel().dx,
                old(self).panel().dy,
                x,
                y,
                width,
                height,
                old(self).capacity(),
                data@,
            ),
    {
        let config = self.config;
        let last_x: u16 = (x as u32 + width as u32 - 1) as u16;
        let last_y: u16 = (y as u32 + height as u32 - 1) as u16;
        let mut script: Vec<Action> = Vec::new();
        push_window(&mut script, config.dx, config.dy, x, y, last_x, last_y);
        push_stream_start(&mut script);
        assert(ops_of(script@).len() == script@.len());
        self.load_script(script);
        self.data = copy_pixels(data);
        self.cursor = 0;
        self.stream = Stream::Area;
        assert(self.head@.skip(0) =~= self.head@);
        assert(self.data@.skip(0) =~= data@);
        assert(self.pending() =~= area_script(
            config.dx,
            config.dy,
            x,
            y,
            width,
            height,
            old(self).capacity(),
            data@,
        ));
        self.first_step()
    }

    /// Takes in how the action handed out last went, and hands out the next
    /// one.
    ///
    /// A pin failure ends the operation with `Error::Pin`. A bus failure
    /// ends it with `Error::Bus`, unless the action was a pixel write of
    /// `write_area`: then the first such failure is put aside and returned
    /// when no step is left. Otherwise the next pending step is handed out,
    /// or `None` when none is left: the operation has succeeded. An operation
    /// that puts no failure aside at its start never does.
    pub fn resume<PinE>(&mut self, event: Event<BusE, PinE>) -> (next: Result<
        Option<Action>,
        Error<BusE, PinE>,
    >)
        requires
            old(self).wf(),
        ensures
            final(self).wf(),
            final(self).panel() == old(self).panel(),
            final(self).capacity() == old(self).capacity(),
            event matches Event::PinFailed(e) ==> next == Err::<Option<Action>, Error<BusE, PinE>>(
                Error::Pin(e),
            ) && final(self).idle(),
            event matches Event::BusFailed(e) ==> (!old(self).lenient() ==> next == Err::<
                Option<Action>,
                Error<BusE, PinE>,
            >(Error::Bus(e)) && final(self).idle()),
            old(self).deferring() == 0 && !old(self).lenient() ==> final(self).deferring() == 0
                && !final(self).lenient(),
            !old(self).aborts(event) && old(self).pending().len() == 0 ==> final(self).idle()
                && next == (match old(self).carried(event) {
                Some(e) => Err::<Option<Action>, Error<BusE, PinE>>(Error::Bus(e)),
                None => Ok(None),
            }),
            !old(self).aborts(event) && old(self).pending().len() > 0 ==> {
                &&& next matches Ok(Some(action)) && action.op() == old(self).pending()[0]
                &&& final(self).pending() == old(self).pending().drop_first()
                &&& final(self).failure() == old(self).carried(event)
                &&& final(self).lenient() == (old(self).pending().len() <= old(self).deferring())
                &&& final(self).deferring() == least(
                    old(self).deferring(),
                    final(self).pending().len(),
                )
            },
    {
        match event {
            Event::PinFailed(e) => {
                self.halt();
                Err(Error::Pin(e))
            },
            Event::BusFailed(e) => {
                if self.lenient {
                    if self.first_bus_error.is_none() {
                        self.first_bus_error = Some(e);
                    }
                    self.proceed()
                } else {
                    self.halt();
                    Err(Error::Bus(e))
                }
            },
            Event::Done => self.proceed(),
        }
    }

    /// Hands out the next pending step, or ends the operation with what was
    /// put aside.
    fn proceed<PinE>(&mut self) -> (next: Result<Option<Action>, Error<BusE, PinE>>)
        requires
            old(self).wf(),
        ensures
            final(self).wf(),
            final(self).panel() == old(self).panel(),
            final(self).capacity() == old(self).capacity(),
            old(self).pending().len() == 0 ==> final(self).idle() && next == (match old(
                self,
            ).failure() {
                Some(e) => Err::<Option<Action>, Error<BusE, PinE>>(Error::Bus(e)),
                None => Ok(None),
            }),
            old(self).pending().len() > 0 ==> {
                &&& next matches Ok(Some(action)) && action.op() == old(self).pending()[0]
                &&& final(self).pending() == old(self).pending().drop_first()
                &&& final(self).failure() == old(self).failure()
                &&& final(self).lenient() == (old(self).pending().len() <= old(self).deferring())
                &&& final(self).deferring() == least(
                    old(self).deferring(),
                    final(self).pending().len(),
                )
            },
    {
        match self.next() {
            Some(action) => Ok(Some(action)),
            None => {
                let failure = self.first_bus_error.take();
                self.halt();
                match failure {
                    Some(e) => Err(Error::Bus(e)),
                    None => Ok(None),
                }
            },
        }
    }
}

} // verus!
