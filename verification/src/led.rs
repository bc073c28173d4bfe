//! The status LED, a WS2812: the flashes that stand for each state of the device, and the pulses
//! that carry a colour.
use vstd::prelude::*;
use crate::system::SystemState;
use crate::ticks;

verus! {

/// A level of the data line.
#[derive(Clone, Copy, PartialEq, Eq, Structural, Debug)]
pub enum Level {
    Low,
    High,
}

/// Two consecutive levels of the data line, each with its length in ticks of 12.5 ns.
#[derive(Clone, Copy, PartialEq, Eq, Structural, Debug)]
pub struct PulseCode {
    pub level1: Level,
    pub length1: u16,
    pub level2: Level,
    pub length2: u16,
}

/// The longest length that the transmitter can take.
pub const MAX_LENGTH: u16 = 0x7fff;

/// How many pulses a colour takes: one for each of its bits, and one that makes it effective.
pub const FRAME: usize = 25;

impl PulseCode {
    /// A pulse code of two levels and their lengths.
    pub fn new(level1: Level, length1: u16, level2: Level, length2: u16) -> (code: PulseCode)
        requires
            length1 <= MAX_LENGTH,
            length2 <= MAX_LENGTH,
        ensures
            code == (PulseCode { level1, length1, level2, length2 }),
    {
        PulseCode { level1, length1, level2, length2 }
    }
}

/// The pulse for a set bit: 800 ns high, then 450 ns low.
pub open spec fn one_pulse() -> PulseCode {
    PulseCode { level1: Level::High, length1: 64, level2: Level::Low, length2: 36 }
}

/// The pulse for a clear bit: 400 ns high, then 850 ns low.
pub open spec fn zero_pulse() -> PulseCode {
    PulseCode { level1: Level::High, length1: 32, level2: Level::Low, length2: 68 }
}

/// The pulse that makes the colour effective: 50 us low.
pub open spec fn latch_pulse() -> PulseCode {
    PulseCode { level1: Level::Low, length1: 4000, level2: Level::Low, length2: 0 }
}

/// Bit number `place` of `byte`, counted from the most significant one.
pub open spec fn bit_at(byte: u8, place: int) -> bool {
    (byte >> (7 - place) as u8) & 1u8 == 1u8
}

/// The byte of a colour that is sent at place `place`: green, then red, then blue.
pub open spec fn color_byte(r: u8, g: u8, b: u8, place: int) -> u8 {
    if place == 0 {
        g
    } else if place == 1 {
        r
    } else {
        b
    }
}

/// Pulse number `i` of the colour.
pub open spec fn pulse_at(r: u8, g: u8, b: u8, i: int) -> PulseCode {
    if i >= 24 {
        latch_pulse()
    } else if bit_at(color_byte(r, g, b, i / 8), i % 8) {
        one_pulse()
    } else {
        zero_pulse()
    }
}

/// The pulses that carry a colour: eight for each of green, red and blue, the most significant
/// bit first, and one that makes the colour effective.
pub open spec fn frame(r: u8, g: u8, b: u8) -> Seq<PulseCode> {
    Seq::new(25, |i: int| pulse_at(r, g, b, i))
}

/// The pulses that carry a colour.
pub fn ws2812_data(r: u8, g: u8, b: u8) -> (data: [PulseCode; 25])
    ensures
        data@ == frame(r, g, b),
{
    let bytes: [u8; 3] = [g, r, b];
    let mut data: [PulseCode; 25] = [PulseCode {
        level1: Level::Low,
        length1: 0,
        level2: Level::Low,
        length2: 0,
    };25];
    let mut bit: usize = 0;
    while bit < 24
        invariant
            bit <= 24,
            bytes@ == seq![g, r, b],
            forall|i: int| 0 <= i < bit ==> data@[i] == pulse_at(r, g, b, i),
        decreases 24 - bit,
    {
        let byte: u8 = bytes[bit / 8];
        let place: u8 = (bit % 8) as u8;
        let mask: u8 = 0x80u8 >> place;
        let ghost down = (7 - place) as u8;
        assert((byte & (0x80u8 >> place) != 0) == ((byte >> down) & 1u8 == 1u8)) by (bit_vector)
            requires
                place < 8,
                down == 7 - place,
        ;
        if byte & mask != 0 {
            data[bit] = PulseCode::new(Level::High, 64, Level::Low, 36);
        } else {
            data[bit] = PulseCode::new(Level::High, 32, Level::Low, 68);
        }
        bit = bit + 1;
    }
    data[24] = PulseCode::new(Level::Low, 4000, Level::Low, 0);
    assert(data@ =~= frame(r, g, b));
    data
}

/// Every bit of a colour takes the same time, 100 ticks, and begins high.
pub proof fn law_bits_take_equal_time(r: u8, g: u8, b: u8, i: int)
    requires
        0 <= i < 24,
    ensures
        frame(r, g, b)[i].length1 + frame(r, g, b)[i].length2 == 100,
        frame(r, g, b)[i].level1 == Level::High,
        frame(r, g, b)[i].level2 == Level::Low,
{
}

/// After the last bit the line stays low for 50 us, at 80 ticks to the microsecond, and the
/// transmission ends there, at a length of zero that no other pulse has.
pub proof fn law_frame_ends_in_latch(r: u8, g: u8, b: u8)
    ensures
        frame(r, g, b).len() == FRAME,
        frame(r, g, b)[24].level1 == Level::Low,
        frame(r, g, b)[24].length1 == 50 * 80,
        frame(r, g, b)[24].length2 == 0,
        forall|i: int|
            0 <= i < 24 ==> (#[trigger] frame(r, g, b)[i]).length1 > 0 && frame(r, g, b)[i].length2
                > 0,
{
}

/// The transmitter can take every pulse.
pub proof fn law_lengths_in_range(r: u8, g: u8, b: u8, i: int)
    requires
        0 <= i < FRAME,
    ensures
        frame(r, g, b)[i].length1 <= MAX_LENGTH,
        frame(r, g, b)[i].length2 <= MAX_LENGTH,
{
}

/// Bytes with the same bits are the same.
proof fn lemma_bits_determine(x: u8, y: u8)
    requires
        forall|place: int| 0 <= place < 8 ==> #[trigger] bit_at(x, place) == bit_at(y, place),
    ensures
        x == y,
{
    assert(bit_at(x, 0) == bit_at(y, 0));
    assert(bit_at(x, 1) == bit_at(y, 1));
    assert(bit_at(x, 2) == bit_at(y, 2));
    assert(bit_at(x, 3) == bit_at(y, 3));
    assert(bit_at(x, 4) == bit_at(y, 4));
    assert(bit_at(x, 5) == bit_at(y, 5));
    assert(bit_at(x, 6) == bit_at(y, 6));
    assert(bit_at(x, 7) == bit_at(y, 7));
    assert(x == y) by (bit_vector)
        requires
            ((x >> 7u8) & 1u8 == 1u8) == ((y >> 7u8) & 1u8 == 1u8),
            ((x >> 6u8) & 1u8 == 1u8) == ((y >> 6u8) & 1u8 == 1u8),
            ((x >> 5u8) & 1u8 == 1u8) == ((y >> 5u8) & 1u8 == 1u8),
            ((x >> 4u8) & 1u8 == 1u8) == ((y >> 4u8) & 1u8 == 1u8),
            ((x >> 3u8) & 1u8 == 1u8) == ((y >> 3u8) & 1u8 == 1u8),
            ((x >> 2u8) & 1u8 == 1u8) == ((y >> 2u8) & 1u8 == 1u8),
            ((x >> 1u8) & 1u8 == 1u8) == ((y >> 1u8) & 1u8 == 1u8),
            ((x >> 0u8) & 1u8 == 1u8) == ((y >> 0u8) & 1u8 == 1u8),
    ;
}

/// The pulses determine the colour: no two colours are sent alike.
pub proof fn law_frame_identifies_color(r: u8, g: u8, b: u8, r2: u8, g2: u8, b2: u8)
    ensures
        frame(r, g, b) == frame(r2, g2, b2) ==> r == r2 && g == g2 && b == b2,
{
    if frame(r, g, b) == frame(r2, g2, b2) {
        assert forall|place: int| 0 <= place < 8 implies #[trigger] bit_at(g, place) == bit_at(
            g2,
            place,
        ) by {
            assert(frame(r, g, b)[place] == frame(r2, g2, b2)[place]);
        }
        lemma_bits_determine(g, g2);
        assert forall|place: int| 0 <= place < 8 implies #[trigger] bit_at(r, place) == bit_at(
            r2,
            place,
        ) by {
            assert(frame(r, g, b)[8 + place] == frame(r2, g2, b2)[8 + place]);
        }
        lemma_bits_determine(r, r2);
        assert forall|place: int| 0 <= place < 8 implies #[trigger] bit_at(b, place) == bit_at(
            b2,
            place,
        ) by {
            assert(frame(r, g, b)[16 + place] == frame(r2, g2, b2)[16 + place]);
        }
        lemma_bits_determine(b, b2);
    }
}

/// One flash of the LED: its colour, and how long it lasts, in ticks.
#[derive(Clone, Copy, PartialEq, Eq, Structural, Debug)]
pub struct LedFlash {
    pub r: u8,
    pub g: u8,
    pub b: u8,
    pub duration: u64,
}

/// How many flashes a [`FlashList`] has room for.
pub const FLASH_CAPACITY: usize = 10;

/// A sequence of flashes: a `heapless::Vec` of ten.
#[verifier::external_body]
pub struct FlashList {
    inner: heapless::Vec<LedFlash, FLASH_CAPACITY>,
}

/// The flashes that a [`FlashList`] holds, in their order.
pub uninterp spec fn flash_list(list: FlashList) -> Seq<LedFlash>;

impl FlashList {
    /// `heapless::Vec::from` for an array: the list holds the items of the array in their order.
    #[verifier::external_body]
    pub(crate) fn from_pair(flashes: [LedFlash; 2]) -> (list: FlashList)
        ensures
            flash_list(list) == flashes@,
    {
        FlashList { inner: heapless::Vec::from(flashes) }
    }

    /// `heapless::Vec::as_slice`: the items that the list holds, in their order.
    #[verifier::external_body]
    pub(crate) fn as_slice(&self) -> (flashes: &[LedFlash])
        ensures
            flashes@ == flash_list(*self),
    {
        self.inner.as_slice()
    }
}

/// A flash that lasts `millis` milliseconds.
pub open spec fn flash(r: u8, g: u8, b: u8, millis: int) -> LedFlash {
    LedFlash { r, g, b, duration: (millis * ticks::TICKS_PER_MILLISECOND) as u64 }
}

/// The flashes that stand for a state: violet and yellow for a failed connection, two greens for
/// a device that runs, and red and orange, more slowly, for the rest.
pub open spec fn flashes_of(state: SystemState) -> Seq<LedFlash> {
    match state {
        SystemState::WifiError => seq![flash(5, 0, 5, 500), flash(5, 5, 0, 500)],
        SystemState::Running => seq![flash(0, 5, 0, 500), flash(2, 5, 2, 500)],
        _ => seq![flash(5, 0, 0, 1000), flash(5, 2, 0, 1000)],
    }
}

/// The flashes that stand for a state.
pub fn led_sequence(state: SystemState) -> (list: FlashList)
    ensures
        flash_list(list) == flashes_of(state),
{
    let half: u64 = ticks::from_millis(500);
    let whole: u64 = ticks::from_millis(1000);
    let flashes: [LedFlash; 2] = match state {
        SystemState::WifiError => [
            LedFlash { r: 0x05, g: 0x00, b: 0x05, duration: half },
            LedFlash { r: 0x05, g: 0x05, b: 0x00, duration: half },
        ],
        SystemState::Running => [
            LedFlash { r: 0x00, g: 0x05, b: 0x00, duration: half },
            LedFlash { r: 0x02, g: 0x05, b: 0x02, duration: half },
        ],
        _ => [
            LedFlash { r: 0x05, g: 0x00, b: 0x00, duration: whole },
            LedFlash { r: 0x05, g: 0x02, b: 0x00, duration: whole },
        ],
    };
    assert(flashes@ =~= flashes_of(state));
    FlashList::from_pair(flashes)
}

/// One step of the LED task: pulses to transmit, and how long to wait then, in ticks.
pub struct LedStep {
    pub data: [PulseCode; 25],
    pub duration: u64,
}

/// What transmitting `flashes` one after the other takes.
pub open spec fn shows(steps: Seq<LedStep>, flashes: Seq<LedFlash>) -> bool {
    &&& steps.len() == flashes.len()
    &&& forall|i: int|
        0 <= i < flashes.len() ==> {
            &&& (#[trigger] steps[i]).data@ == frame(flashes[i].r, flashes[i].g, flashes[i].b)
            &&& steps[i].duration == flashes[i].duration
        }
}

/// The steps that show a sequence of flashes.
pub fn show_led_sequence(led_flashes: &FlashList) -> (steps: Vec<LedStep>)
    ensures
        shows(steps@, flash_list(*led_flashes)),
{
    let flashes = led_flashes.as_slice();
    let mut steps: Vec<LedStep> = Vec::new();
    let mut i: usize = 0;
    while i < flashes.len()
        invariant
            i <= flashes@.len(),
            shows(steps@, flashes@.take(i as int)),
        decreases flashes@.len() - i,
    {
        let led_flash = flashes[i];
        let data = ws2812_data(led_flash.r, led_flash.g, led_flash.b);
        steps.push(LedStep { data, duration: led_flash.duration });
        i = i + 1;
    }
    assert(flashes@.take(flashes@.len() as int) =~= flashes@);
    steps
}

/// One round of the LED task, for the state that is stored under `code`.
pub fn led_task(code: u8) -> (steps: Vec<LedStep>)
    ensures
        shows(steps@, flashes_of(SystemState::spec_from_code(code))),
{
    let list = led_sequence(SystemState::from_code(code));
    show_led_sequence(&list)
}

/// Whether the LED shows two states alike: it tells apart only a device that runs, one that
/// cannot connect, and the rest.
pub open spec fn looks_alike(a: SystemState, b: SystemState) -> bool {
    a == b || (a != SystemState::Running && a != SystemState::WifiError && b != SystemState::Running
        && b != SystemState::WifiError)
}

/// The LED shows different flashes for a device that runs, one that cannot connect, and the rest.
pub proof fn law_flashes_tell_states_apart(a: SystemState, b: SystemState)
    ensures
        flashes_of(a) == flashes_of(b) <==> looks_alike(a, b),
{
    if flashes_of(a) == flashes_of(b) {
        assert(flashes_of(a)[0] == flashes_of(b)[0]);
    }
}

/// Every state has flashes, no more than a list has room for, and each of them takes time.
pub proof fn law_flashes_fit(state: SystemState)
    ensures
        0 < flashes_of(state).len() <= FLASH_CAPACITY,
        forall|i: int|
            0 <= i < flashes_of(state).len() ==> (#[trigger] flashes_of(state)[i]).duration > 0,
{
}

/// What the LED takes a pulse for: a one if the line is high for 64 ticks, and otherwise a zero.
pub open spec fn received_bit(pulse: PulseCode) -> int {
    if pulse.level1 == Level::High && pulse.length1 == 64 {
        1
    } else {
        0
    }
}

/// The number that the LED takes eight pulses for, from pulse `from` on: the first one counts most.
pub open spec fn received_byte(pulses: Seq<PulseCode>, from: int) -> int {
    128 * received_bit(pulses[from]) + 64 * received_bit(pulses[from + 1]) + 32 * received_bit(
        pulses[from + 2],
    ) + 16 * received_bit(pulses[from + 3]) + 8 * received_bit(pulses[from + 4]) + 4 * received_bit(
        pulses[from + 5],
    ) + 2 * received_bit(pulses[from + 6]) + received_bit(pulses[from + 7])
}

/// A byte is the sum of its bits, the first of which counts most.
proof fn lemma_byte_of_bits(x: u8)
    ensures
        x == 128 * (if bit_at(x, 0) { 1int } else { 0 }) + 64 * (if bit_at(x, 1) { 1int } else { 0 })
            + 32 * (if bit_at(x, 2) { 1int } else { 0 }) + 16 * (if bit_at(x, 3) { 1int } else { 0 })
            + 8 * (if bit_at(x, 4) { 1int } else { 0 }) + 4 * (if bit_at(x, 5) { 1int } else { 0 })
            + 2 * (if bit_at(x, 6) { 1int } else { 0 }) + (if bit_at(x, 7) { 1int } else { 0 }),
{
    let b0 = (x >> 7u8) & 1u8;
    let b1 = (x >> 6u8) & 1u8;
    let b2 = (x >> 5u8) & 1u8;
    let b3 = (x >> 4u8) & 1u8;
    let b4 = (x >> 3u8) & 1u8;
    let b5 = (x >> 2u8) & 1u8;
    let b6 = (x >> 1u8) & 1u8;
    let b7 = (x >> 0u8) & 1u8;
    assert(b0 <= 1 && b1 <= 1 && b2 <= 1 && b3 <= 1 && b4 <= 1 && b5 <= 1 && b6 <= 1 && b7 <= 1 && x
        == 128 * b0 + 64 * b1 + 32 * b2 + 16 * b3 + 8 * b4 + 4 * b5 + 2 * b6 + b7) by (bit_vector)
        requires
            b0 == (x >> 7u8) & 1u8,
            b1 == (x >> 6u8) & 1u8,
            b2 == (x >> 5u8) & 1u8,
            b3 == (x >> 4u8) & 1u8,
            b4 == (x >> 3u8) & 1u8,
            b5 == (x >> 2u8) & 1u8,
            b6 == (x >> 1u8) & 1u8,
            b7 == (x >> 0u8) & 1u8,
    ;
}

/// The LED receives the colour that was sent: reading the pulses as it does, the most significant
/// bit first, gives green, then red, then blue. Each of these pulses is one of the two that stand
/// for a bit, and the last pulse keeps the line low for 4000 ticks and ends there.
pub proof fn law_led_receives_color(r: u8, g: u8, b: u8, data: [PulseCode; 25])
    requires
        call_ensures(ws2812_data, (r, g, b), data),
    ensures
        received_byte(data@, 0) == g,
        received_byte(data@, 8) == r,
        received_byte(data@, 16) == b,
        forall|i: int|
            0 <= i < 24 ==> {
                &&& (#[trigger] data@[i]).level1 == Level::High
                &&& data@[i].level2 == Level::Low
                &&& data@[i].length1 == 64 && data@[i].length2 == 36 || data@[i].length1 == 32
                    && data@[i].length2 == 68
            },
        data@[24].level1 == Level::Low,
        data@[24].length1 == 4000,
        data@[24].level2 == Level::Low,
        data@[24].length2 == 0,
{
    lemma_byte_of_bits(g);
    lemma_byte_of_bits(r);
    lemma_byte_of_bits(b);
}

/// The LED shows what it was asked to: a list of flashes takes one step for each of them, in their
/// order, in which the LED receives the flash's colour and keeps it for the flash's duration.
pub proof fn law_every_flash_is_shown(list: FlashList, steps: Vec<LedStep>, i: int)
    requires
        call_ensures(show_led_sequence, (&list,), steps),
        0 <= i < flash_list(list).len(),
    ensures
        steps@.len() == flash_list(list).len(),
        received_byte(steps@[i].data@, 0) == flash_list(list)[i].g,
        received_byte(steps@[i].data@, 8) == flash_list(list)[i].r,
        received_byte(steps@[i].data@, 16) == flash_list(list)[i].b,
        steps@[i].duration == flash_list(list)[i].duration,
{
    let led_flash = flash_list(list)[i];
    lemma_byte_of_bits(led_flash.g);
    lemma_byte_of_bits(led_flash.r);
    lemma_byte_of_bits(led_flash.b);
}

/// Whether in step `step` the LED receives this colour, and keeps it for so many ticks.
pub open spec fn receives(step: LedStep, r: int, g: int, b: int, ticks: int) -> bool {
    &&& received_byte(step.data@, 0) == g
    &&& received_byte(step.data@, 8) == r
    &&& received_byte(step.data@, 16) == b
    &&& step.duration == ticks
}

/// What the LED receives for each number under which a state can be stored. A device that runs
/// shows two greens and one that cannot connect shows violet and yellow, for half a second each;
/// under every other number the LED shows red and orange, for a second each.
pub proof fn law_led_shows_state(code: u8, steps: Vec<LedStep>)
    requires
        call_ensures(led_task, (code,), steps),
    ensures
        steps@.len() == 2,
        code == 1 ==> receives(steps@[0], 0, 5, 0, 500_000) && receives(
            steps@[1],
            2,
            5,
            2,
            500_000,
        ),
        code == 2 ==> receives(steps@[0], 5, 0, 5, 500_000) && receives(
            steps@[1],
            5,
            5,
            0,
            500_000,
        ),
        code != 1 && code != 2 ==> receives(steps@[0], 5, 0, 0, 1_000_000) && receives(
            steps@[1],
            5,
            2,
            0,
            1_000_000,
        ),
{
    let flashes = flashes_of(SystemState::spec_from_code(code));
    assert(steps@[0].data@ == frame(flashes[0].r, flashes[0].g, flashes[0].b));
    assert(steps@[1].data@ == frame(flashes[1].r, flashes[1].g, flashes[1].b));
    lemma_byte_of_bits(flashes[0].r);
    lemma_byte_of_bits(flashes[0].g);
    lemma_byte_of_bits(flashes[0].b);
    lemma_byte_of_bits(flashes[1].r);
    lemma_byte_of_bits(flashes[1].g);
    lemma_byte_of_bits(flashes[1].b);
}

} // verus!
