use vstd::prelude::*;

use crate::cpu::{CPU, CpuState};
use crate::ram::{RAM, cell};

verus! {

pub const DISPLAY_WIDTH: usize = 224;

pub const DISPLAY_HEIGHT: usize = 256;

pub const DISPLAY_START_ADDRESS: u16 = 0x2400;

pub const DISPLAY_END_ADDRESS: u16 = 0x4000;

pub const BLOCK_WIDTH: usize = 3;

pub const BLOCK_HEIGHT: usize = 3;

pub const WINDOW_WIDTH: usize = DISPLAY_WIDTH * BLOCK_WIDTH;

pub const WINDOW_HEIGHT: usize = DISPLAY_HEIGHT * BLOCK_HEIGHT;

/// Number of pixels on screen, each one bit of video memory.
pub const PIXEL_COUNT: u32 = 57344;

/// The controls of the cabinet, each tied to one bit of one input latch.
#[derive(Clone, Copy, PartialEq, Eq, Debug, Structural)]
pub enum Key {
    InsertCoin,
    SelectOnePlayer,
    SelectTwoPlayers,
    Player1Shoot,
    Player1Left,
    Player1Right,
    Player2Shoot,
    Player2Left,
    Player2Right,
}

/// A control pressed or released.
#[derive(Clone, Copy, PartialEq, Eq, Debug, Structural)]
pub enum Event {
    KeyDown(Key),
    KeyUp(Key),
}

impl Key {
    /// The latch the key sets: 1 for `in1`, 2 for `in2`.
    pub open spec fn player_spec(self) -> u8 {
        match self {
            Key::Player2Shoot | Key::Player2Left | Key::Player2Right => 2,
            _ => 1,
        }
    }

    /// The bit the key sets in its latch.
    pub open spec fn code_spec(self) -> u8 {
        match self {
            Key::InsertCoin => 0,
            Key::SelectTwoPlayers => 1,
            Key::SelectOnePlayer => 2,
            Key::Player1Shoot | Key::Player2Shoot => 4,
            Key::Player1Left | Key::Player2Left => 5,
            Key::Player1Right | Key::Player2Right => 6,
        }
    }

    /// The latch byte with only the key's bit set: 2 to the power `code_spec`.
    pub open spec fn mask_spec(self) -> u8 {
        match self {
            Key::InsertCoin => 1,
            Key::SelectTwoPlayers => 2,
            Key::SelectOnePlayer => 4,
            Key::Player1Shoot | Key::Player2Shoot => 16,
            Key::Player1Left | Key::Player2Left => 32,
            Key::Player1Right | Key::Player2Right => 64,
        }
    }

    pub fn player(&self) -> (r: u8)
        ensures
            r == self.player_spec(),
    {
        match self {
            Key::Player2Shoot | Key::Player2Left | Key::Player2Right => 2,
            _ => 1,
        }
    }

    pub fn code(&self) -> (r: u8)
        ensures
            r == self.code_spec(),
    {
        match self {
            Key::InsertCoin => 0,
            Key::SelectTwoPlayers => 1,
            Key::SelectOnePlayer => 2,
            Key::Player1Shoot | Key::Player2Shoot => 4,
            Key::Player1Left | Key::Player2Left => 5,
            Key::Player1Right | Key::Player2Right => 6,
        }
    }

    pub fn mask(&self) -> (r: u8)
        ensures
            r == self.mask_spec(),
    {
        match self {
            Key::InsertCoin => 1,
            Key::SelectTwoPlayers => 2,
            Key::SelectOnePlayer => 4,
            Key::Player1Shoot | Key::Player2Shoot => 16,
            Key::Player1Left | Key::Player2Left => 32,
            Key::Player1Right | Key::Player2Right => 64,
        }
    }
}

/// The two input latches after `event`: a key going down sets its bit, going up clears it,
/// and the other latch keeps its value.
pub open spec fn latches_after(latches: (u8, u8), event: Event) -> (u8, u8) {
    match event {
        Event::KeyDown(key) => if key.player_spec() == 1 {
            (latches.0 | key.mask_spec(), latches.1)
        } else {
            (latches.0, latches.1 | key.mask_spec())
        },
        Event::KeyUp(key) => if key.player_spec() == 1 {
            (latches.0 & !key.mask_spec(), latches.1)
        } else {
            (latches.0, latches.1 & !key.mask_spec())
        },
    }
}

/// The input latches after `events`, in order.
pub open spec fn latches_after_all(latches: (u8, u8), events: Seq<Event>) -> (u8, u8)
    decreases events.len(),
{
    if events.len() == 0 {
        latches
    } else {
        latches_after(latches_after_all(latches, events.drop_last()), events.last())
    }
}

/// `s` with its input latches replaced.
pub open spec fn with_latches(s: CpuState, latches: (u8, u8)) -> CpuState {
    CpuState { in1: latches.0, in2: latches.1, ..s }
}

/// Applies one event to the input latches of `cpu`.
pub fn apply_event(cpu: &mut CPU, event: Event)
    ensures
        final(cpu)@ == with_latches(old(cpu)@, latches_after((old(cpu).in1, old(cpu).in2), event)),
{
    match event {
        Event::KeyDown(key) => {
            if key.player() == 1 {
                cpu.in1 = cpu.in1 | key.mask();
            } else {
                cpu.in2 = cpu.in2 | key.mask();
            }
        },
        Event::KeyUp(key) => {
            if key.player() == 1 {
                cpu.in1 = cpu.in1 & !key.mask();
            } else {
                cpu.in2 = cpu.in2 & !key.mask();
            }
        },
    }
}

/// Applies `events` in order to the input latches of `cpu`.
pub fn apply_events(cpu: &mut CPU, events: &Vec<Event>)
    ensures
        final(cpu)@ == with_latches(
            old(cpu)@,
            latches_after_all((old(cpu).in1, old(cpu).in2), events@),
        ),
{
    let ghost start = cpu@;
    let mut i: usize = 0;
    while i < events.len()
        invariant
            i <= events@.len(),
            cpu@ == with_latches(start, latches_after_all((start.in1, start.in2), events@.take(i as int))),
        decreases events@.len() - i,
    {
        proof {
            assert(events@.take(i + 1).drop_last() =~= events@.take(i as int));
        }
        apply_event(cpu, events[i]);
        i = i + 1;
    }
    proof {
        assert(events@.take(i as int) =~= events@);
    }
}

/// One drawing step.
#[derive(Clone, Copy, PartialEq, Eq, Debug, Structural)]
pub enum CanvasCommand {
    Clear,
    SetDrawColor(u8, u8, u8),
    FillRect(i32, i32, u32, u32),
}

/// The colour of a lit pixel in the 8-pixel group starting at row `row`: red in the band
/// just above the bottom, green near the top, white elsewhere.
pub open spec fn band_color(row: int) -> (u8, u8, u8) {
    if row > 200 && row < 220 {
        (0xFF, 0, 0)
    } else if row < 80 {
        (0, 0xFF, 0)
    } else {
        (0xFF, 0xFF, 0xFF)
    }
}

fn band_color_of(row: u32) -> (r: (u8, u8, u8))
    ensures
        r == band_color(row as int),
{
    if row > 200 && row < 220 {
        (0xFF, 0, 0)
    } else if row < 80 {
        (0, 0xFF, 0)
    } else {
        (0xFF, 0xFF, 0xFF)
    }
}

/// The drawing steps of pixel `k`: video memory holds 224 columns of 32 bytes, each byte
/// 8 pixels least significant bit first; pixel `k` is bit `k % 8` of byte `k / 8`, in
/// column `k / 256`. A lit pixel becomes a 3 by 3 block, drawn upward from the bottom.
pub open spec fn pixel_commands(memory: Seq<u8>, k: int) -> Seq<CanvasCommand> {
    let column = k / 256;
    let row = (k / 8) % 32 * 8;
    let bit = k % 8;
    let byte = cell(memory, (DISPLAY_START_ADDRESS + k / 8) as u16);
    if (byte >> (bit as u8)) & 1 == 1 {
        let (r, g, b) = band_color(row);
        seq![
            CanvasCommand::SetDrawColor(r, g, b),
            CanvasCommand::FillRect(
                (column * 3) as i32,
                ((DISPLAY_HEIGHT - row - bit) * 3) as i32,
                3,
                3,
            ),
        ]
    } else {
        seq![]
    }
}

/// The drawing steps of the first `count` pixels.
pub open spec fn pixels_commands(memory: Seq<u8>, count: nat) -> Seq<CanvasCommand>
    decreases count,
{
    if count == 0 {
        seq![]
    } else {
        pixels_commands(memory, (count - 1) as nat) + pixel_commands(memory, count - 1)
    }
}

/// Everything drawn for one frame: clear to black, then every lit pixel.
pub open spec fn frame_commands_spec(memory: Seq<u8>) -> Seq<CanvasCommand> {
    seq![CanvasCommand::SetDrawColor(0, 0, 0), CanvasCommand::Clear] + pixels_commands(
        memory,
        PIXEL_COUNT as nat,
    )
}

/// The drawing steps that show the video memory of `ram`.
pub fn frame_commands(ram: &RAM) -> (r: Vec<CanvasCommand>)
    requires
        ram.wf(),
    ensures
        r@ == frame_commands_spec(ram@),
{
    let mut commands: Vec<CanvasCommand> = Vec::new();
    commands.push(CanvasCommand::SetDrawColor(0, 0, 0));
    commands.push(CanvasCommand::Clear);
    let mut k: u32 = 0;
    while k < PIXEL_COUNT
        invariant
            k <= PIXEL_COUNT,
            ram.wf(),
            commands@ == seq![CanvasCommand::SetDrawColor(0, 0, 0), CanvasCommand::Clear]
                + pixels_commands(ram@, k as nat),
            commands@.len() <= 2 + 2 * k,
        decreases PIXEL_COUNT - k,
    {
        let column = k / 256;
        let row = (k / 8) % 32 * 8;
        let bit = (k % 8) as u8;
        let byte = ram.read((DISPLAY_START_ADDRESS as u32 + k / 8) as u16);
        let ghost before = commands@;
        if (byte >> bit) & 1 == 1 {
            let (r, g, b) = band_color_of(row);
            commands.push(CanvasCommand::SetDrawColor(r, g, b));
            let x = (column * 3) as i32;
            let y = ((DISPLAY_HEIGHT as u32 - row - bit as u32) * 3) as i32;
            commands.push(CanvasCommand::FillRect(x, y, 3, 3));
        }
        proof {
            assert(commands@ =~= before + pixel_commands(ram@, k as int));
        }
        k = k + 1;
    }
    commands
}

/// A surface to draw on.
pub trait ICanvas {
    fn clear(&mut self);

    fn set_draw_color(&mut self, r: u8, g: u8, b: u8);

    fn fill_rect(&mut self, x: i32, y: i32, width: u32, height: u32);

    /// Shows what was drawn; an error says why it could not be shown.
    fn present(&mut self) -> Result<(), String>;
}

/// A source of input events.
pub trait IEventFetcher {
    fn fetch_events(&mut self) -> Vec<Event>;
}

/// A canvas and an event source, with a buffer for events handed in directly.
pub struct Frontend<C, E> {
    pub canvas: C,
    external_event_buffer: Vec<Event>,
    pub event_fetcher: E,
}

impl<C: ICanvas, E: IEventFetcher> Frontend<C, E> {
    /// Events handed in by `notify` and not applied yet.
    pub closed spec fn pending_events(&self) -> Seq<Event> {
        self.external_event_buffer@
    }

    pub fn new(canvas: C, event_fetcher: E) -> (r: Frontend<C, E>)
        ensures
            r.pending_events() == Seq::<Event>::empty(),
    {
        Frontend { canvas, external_event_buffer: Vec::new(), event_fetcher }
    }

    /// Draws the video memory of `ram` and presents it; the result is what the canvas
    /// reports on presenting.
    pub fn render_frame(&mut self, ram: &RAM) -> (r: Result<(), String>)
        requires
            ram.wf(),
        ensures
            final(self).pending_events() == old(self).pending_events(),
    {
        let commands = frame_commands(ram);
        let mut i: usize = 0;
        while i < commands.len()
            invariant
                self.pending_events() == old(self).pending_events(),
            decreases commands@.len() - i,
        {
            match commands[i] {
                CanvasCommand::Clear => self.canvas.clear(),
                CanvasCommand::SetDrawColor(r, g, b) => self.canvas.set_draw_color(r, g, b),
                CanvasCommand::FillRect(x, y, width, height) => self.canvas.fill_rect(
                    x,
                    y,
                    width,
                    height,
                ),
            }
            i = i + 1;
        }
        self.canvas.present()
    }

    /// Applies the events handed in by `notify`, then those the event source reports, to
    /// the input latches of `cpu`.
    pub fn handle_events(&mut self, cpu: &mut CPU)
        ensures
            final(self).pending_events() == Seq::<Event>::empty(),
            exists|fetched: Seq<Event>|
                final(cpu)@ == with_latches(
                    old(cpu)@,
                    latches_after_all(
                        (old(cpu).in1, old(cpu).in2),
                        #[trigger] (old(self).pending_events() + fetched),
                    ),
                ),
    {
        let ghost start = cpu@;
        let ghost buffered = self.pending_events();
        let fetched = self.event_fetcher.fetch_events();
        assert(self.pending_events() == buffered);
        apply_events(cpu, &self.external_event_buffer);
        let ghost middle = cpu@;
        apply_events(cpu, &fetched);
        proof {
            lemma_latches_after_concat((start.in1, start.in2), buffered, fetched@);
            assert(cpu@ == with_latches(
                start,
                latches_after_all((start.in1, start.in2), buffered + fetched@),
            ));
        }
        self.external_event_buffer.clear();
    }

    /// Keeps `event` to be applied at the next `handle_events`.
    pub fn notify(&mut self, event: Event)
        ensures
            final(self).pending_events() == old(self).pending_events().push(event),
    {
        self.external_event_buffer.push(event);
    }
}

/// Applying two runs of events one after the other is applying them joined.
pub proof fn lemma_latches_after_concat(latches: (u8, u8), first: Seq<Event>, second: Seq<Event>)
    ensures
        latches_after_all(latches_after_all(latches, first), second) == latches_after_all(
            latches,
            first + second,
        ),
    decreases second.len(),
{
    if second.len() == 0 {
        assert(first + second =~= first);
    } else {
        lemma_latches_after_concat(latches, first, second.drop_last());
        assert((first + second).drop_last() =~= first + second.drop_last());
    }
}

} // verus!

verus! {

proof fn lemma_mask_bits(latch: u8, mask: u8)
    ensures
        (latch | mask) & mask == mask,
        (latch & !mask) & mask == 0,
        (latch | mask) & !mask == latch & !mask,
        (latch & !mask) & !mask == latch & !mask,
{
    assert((latch | mask) & mask == mask) by (bit_vector);
    assert((latch & !mask) & mask == 0) by (bit_vector);
    assert((latch | mask) & !mask == latch & !mask) by (bit_vector);
    assert((latch & !mask) & !mask == latch & !mask) by (bit_vector);
}

/// A key going down sets its bit in its own player's latch and a key going up clears it;
/// the other bits of that latch and the other player's latch are left as they were.
pub proof fn lemma_key_events(latches: (u8, u8), key: Key)
    ensures
        ({
            let down = latches_after(latches, Event::KeyDown(key));
            let up = latches_after(latches, Event::KeyUp(key));
            let mask = key.mask_spec();
            &&& key.player_spec() == 1 ==> {
                &&& down.0 & mask == mask
                &&& down.0 & !mask == latches.0 & !mask
                &&& up.0 & mask == 0
                &&& up.0 & !mask == latches.0 & !mask
                &&& down.1 == latches.1
                &&& up.1 == latches.1
            }
            &&& key.player_spec() == 2 ==> {
                &&& down.1 & mask == mask
                &&& down.1 & !mask == latches.1 & !mask
                &&& up.1 & mask == 0
                &&& up.1 & !mask == latches.1 & !mask
                &&& down.0 == latches.0
                &&& up.0 == latches.0
            }
        }),
{
    lemma_mask_bits(latches.0, key.mask_spec());
    lemma_mask_bits(latches.1, key.mask_spec());
}

} // verus!
