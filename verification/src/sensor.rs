//! The VL53L8CX distance sensor: the order of its calls, and the picture of what it measured.
use vstd::prelude::*;
use vstd::string::StringExecFns;
use crate::bounded;
use crate::bounded::CellText;
use crate::system::SystemState;
use crate::text;
use crate::ticks;

verus! {

/// How many zones the sensor measures: eight rows of eight.
pub const ZONES: usize = 64;

/// How many zones stand in a row.
pub const ROW_ZONES: usize = 8;

/// The resolution to select, in zones.
pub const RESOLUTION: u8 = 64;

/// How long to wait between two looks at the sensor, in milliseconds.
pub const POLL_MILLIS: u64 = 20;

/// What the sensor task does next.
#[derive(Clone, Copy, PartialEq, Eq, Structural, Debug)]
pub enum SensorCall {
    /// Load the sensor's program.
    Init,
    /// Select the resolution, in zones.
    SetResolution(u8),
    /// Start to measure.
    StartRanging,
    /// Ask whether a measurement is ready.
    CheckReady,
    /// Fetch the measurement.
    GetData,
    /// Wait for so many ticks.
    Pause(u64),
    /// Nothing more: the sensor could not be started.
    Stopped,
}

/// What a call to the sensor came back with.
#[derive(Clone, Copy, PartialEq, Eq, Structural, Debug)]
pub struct SensorReply {
    /// The status of the call; zero is success.
    pub status: u8,
    /// Whether a measurement is ready, if that was asked; zero is no.
    pub ready: u8,
}

/// What follows from a reply.
#[derive(Clone, Copy, PartialEq, Eq, Structural, Debug)]
pub struct SensorStep {
    /// What to do next.
    pub next: SensorCall,
    /// A state of the device to announce.
    pub announce: Option<SystemState>,
    /// Whether a measurement has come in that is to be shown.
    pub show: bool,
}

/// The first call.
pub open spec fn first_call() -> SensorCall {
    SensorCall::Init
}

/// The wait between two looks at the sensor.
pub open spec fn poll_pause() -> SensorCall {
    SensorCall::Pause((POLL_MILLIS * ticks::TICKS_PER_MILLISECOND) as u64)
}

/// What one of the calls that start the sensor leads to.
pub open spec fn starting(status: u8, next: SensorCall) -> SensorStep {
    if status == 0 {
        SensorStep { next, announce: None, show: false }
    } else {
        SensorStep {
            next: SensorCall::Stopped,
            announce: Some(SystemState::SensorError),
            show: false,
        }
    }
}

/// What follows from `reply` to `call`. The sensor is started in three calls, of which each must
/// succeed. From then on it is looked at again and again, and failures only delay the next look.
pub open spec fn after(call: SensorCall, reply: SensorReply) -> SensorStep {
    match call {
        SensorCall::Init => starting(reply.status, SensorCall::SetResolution(RESOLUTION)),
        SensorCall::SetResolution(_) => starting(reply.status, SensorCall::StartRanging),
        SensorCall::StartRanging => starting(reply.status, SensorCall::CheckReady),
        SensorCall::CheckReady => SensorStep {
            next: if reply.status == 0 && reply.ready != 0 {
                SensorCall::GetData
            } else {
                poll_pause()
            },
            announce: None,
            show: false,
        },
        SensorCall::GetData => SensorStep {
            next: poll_pause(),
            announce: None,
            show: reply.status == 0,
        },
        SensorCall::Pause(_) => SensorStep {
            next: SensorCall::CheckReady,
            announce: None,
            show: false,
        },
        SensorCall::Stopped => SensorStep {
            next: SensorCall::Stopped,
            announce: None,
            show: false,
        },
    }
}

/// The call with which the sensor task begins.
pub fn sensor_begin() -> (call: SensorCall)
    ensures
        call == first_call(),
{
    SensorCall::Init
}

fn started(status: u8, next: SensorCall) -> (step: SensorStep)
    ensures
        step == starting(status, next),
{
    if status != 0 {
        return SensorStep {
            next: SensorCall::Stopped,
            announce: Some(SystemState::SensorError),
            show: false,
        };
    }
    SensorStep { next, announce: None, show: false }
}

/// What the sensor task does after `reply` to `call`.
pub fn sensor_step(call: SensorCall, reply: SensorReply) -> (step: SensorStep)
    ensures
        step == after(call, reply),
{
    match call {
        SensorCall::Init => started(reply.status, SensorCall::SetResolution(RESOLUTION)),
        SensorCall::SetResolution(_) => started(reply.status, SensorCall::StartRanging),
        SensorCall::StartRanging => started(reply.status, SensorCall::CheckReady),
        SensorCall::CheckReady => {
            if reply.status == 0 && reply.ready != 0 {
                SensorStep { next: SensorCall::GetData, announce: None, show: false }
            } else {
                let pause: u64 = ticks::from_millis(POLL_MILLIS);
                SensorStep { next: SensorCall::Pause(pause), announce: None, show: false }
            }
        },
        SensorCall::GetData => {
            let pause: u64 = ticks::from_millis(POLL_MILLIS);
            SensorStep {
                next: SensorCall::Pause(pause),
                announce: None,
                show: reply.status == 0,
            }
        },
        SensorCall::Pause(_) => SensorStep {
            next: SensorCall::CheckReady,
            announce: None,
            show: false,
        },
        SensorCall::Stopped => SensorStep {
            next: SensorCall::Stopped,
            announce: None,
            show: false,
        },
    }
}

/// The call that stands after all of `replies` have come in, beginning with `call`.
pub open spec fn call_after(call: SensorCall, replies: Seq<SensorReply>) -> SensorCall
    decreases replies.len(),
{
    if replies.len() == 0 {
        call
    } else {
        call_after(after(call, replies[0]).next, replies.skip(1))
    }
}

/// Whether the sensor has been started.
pub open spec fn is_ranging(call: SensorCall) -> bool {
    call is CheckReady || call is GetData || call is Pause
}

/// The task stops exactly when it announces a sensor error, apart from a task that had stopped
/// before.
pub proof fn law_stops_with_sensor_error(call: SensorCall, reply: SensorReply)
    requires
        call != SensorCall::Stopped,
    ensures
        after(call, reply).next == SensorCall::Stopped <==> after(call, reply).announce == Some(
            SystemState::SensorError,
        ),
        after(call, reply).announce is Some ==> after(call, reply).announce == Some(
            SystemState::SensorError,
        ),
{
}

/// A sensor that has been started is looked at forever, whatever it replies.
pub proof fn law_ranging_never_stops(call: SensorCall, replies: Seq<SensorReply>)
    requires
        is_ranging(call),
    ensures
        is_ranging(call_after(call, replies)),
    decreases replies.len(),
{
    if replies.len() > 0 {
        law_ranging_never_stops(after(call, replies[0]).next, replies.skip(1));
    }
}

/// The sensor is started exactly when its three first calls succeed; at the first failure the
/// task stops.
pub proof fn law_start_needs_three_successes(a: SensorReply, b: SensorReply, c: SensorReply)
    ensures
        call_after(first_call(), seq![a, b, c]) == if a.status == 0 && b.status == 0 && c.status
            == 0 {
            SensorCall::CheckReady
        } else {
            SensorCall::Stopped
        },
{
    let replies = seq![a, b, c];
    assert(replies.skip(1) =~= seq![b, c]);
    assert(seq![b, c].skip(1) =~= seq![c]);
    assert(seq![c].skip(1) =~= Seq::empty());
    reveal_with_fuel(call_after, 4);
}

/// A measurement is shown only when it has been fetched successfully.
pub proof fn law_shows_only_fetched(call: SensorCall, reply: SensorReply)
    ensures
        after(call, reply).show <==> call == SensorCall::GetData && reply.status == 0,
{
}

/// The escape sequence that colours a distance, in millimetres: from red for what is near to
/// violet for what is far.
pub open spec fn distance_color(number: int) -> Seq<char> {
    if number <= 49 {
        "\x1b[38;5;196m"@
    } else if number <= 99 {
        "\x1b[38;5;208m"@
    } else if number <= 199 {
        "\x1b[38;5;226m"@
    } else if number <= 399 {
        "\x1b[38;5;46m"@
    } else if number <= 799 {
        "\x1b[38;5;51m"@
    } else if number <= 1599 {
        "\x1b[38;5;21m"@
    } else {
        "\x1b[38;5;129m"@
    }
}

/// A distance in its colour: four digits wide, and the colour reset behind it.
pub open spec fn padded_cell(number: int) -> Seq<char> {
    distance_color(number) + text::zero_padded(number, 4) + "\x1b[0m"@
}

fn color_of(number: i16) -> (color: &'static str)
    ensures
        color@ == distance_color(number as int),
{
    if number <= 49 {
        "\x1b[38;5;196m"
    } else if number <= 99 {
        "\x1b[38;5;208m"
    } else if number <= 199 {
        "\x1b[38;5;226m"
    } else if number <= 399 {
        "\x1b[38;5;46m"
    } else if number <= 799 {
        "\x1b[38;5;51m"
    } else if number <= 1599 {
        "\x1b[38;5;21m"
    } else {
        "\x1b[38;5;129m"
    }
}

/// Colours are ASCII and at most eleven characters long.
proof fn lemma_color_size(number: int)
    ensures
        vstd::utf8::is_ascii_chars(distance_color(number)),
        distance_color(number).len() <= 11,
{
    reveal_strlit("\x1b[38;5;196m");
    reveal_strlit("\x1b[38;5;208m");
    reveal_strlit("\x1b[38;5;226m");
    reveal_strlit("\x1b[38;5;46m");
    reveal_strlit("\x1b[38;5;51m");
    reveal_strlit("\x1b[38;5;21m");
    reveal_strlit("\x1b[38;5;129m");
}

/// A padded number is ASCII and, for a distance, between four and six characters long.
proof fn lemma_padded_size(number: int)
    requires
        i16::MIN <= number <= i16::MAX,
    ensures
        vstd::utf8::is_ascii_chars(text::zero_padded(number, 4)),
        4 <= text::zero_padded(number, 4).len() <= 6,
        -999 <= number <= 9999 ==> text::zero_padded(number, 4).len() == 4,
{
    text::lemma_decimal_len(text::magnitude(number));
    text::lemma_decimal_digits(text::magnitude(number));
}

/// Every distance, coloured and padded, fits into a cell, so none is ever cut off or refused.
pub proof fn law_every_distance_fits(number: int)
    requires
        i16::MIN <= number <= i16::MAX,
    ensures
        vstd::utf8::encode_utf8(padded_cell(number)).len() <= bounded::CELL_CAPACITY,
{
    lemma_color_size(number);
    lemma_padded_size(number);
    reveal_strlit("\x1b[0m");
    bounded::lemma_ascii_len(padded_cell(number));
}

/// Distances from -999 to 9999 are all shown four characters wide, so the columns line up.
pub proof fn law_columns_line_up(number: int)
    requires
        -999 <= number <= 9999,
    ensures
        text::zero_padded(number, 4).len() == 4,
{
    lemma_padded_size(number);
}

/// A distance in its colour.
pub fn left_pad(number: i16) -> (cell: CellText)
    ensures
        bounded::cell_text(cell) == padded_cell(number as int),
{
    let color = color_of(number);
    let mut digits = String::new();
    text::append_zero_padded(&mut digits, number, 4);
    let ghost padded = text::zero_padded(number as int, 4);
    let reset = "\x1b[0m";
    assert(digits@ =~= padded);
    proof {
        lemma_color_size(number as int);
        lemma_padded_size(number as int);
        reveal_strlit("\x1b[0m");
        bounded::lemma_ascii_len(Seq::empty());
        bounded::lemma_ascii_len(color@);
        bounded::lemma_ascii_len(digits@);
        bounded::lemma_ascii_len(reset@);
        bounded::lemma_ascii_len(color@ + digits@);
        assert(Seq::<char>::empty() + color@ =~= color@);
    }
    let mut cell = CellText::new();
    cell.push_str(color);
    cell.push_str(digits.as_str());
    cell.push_str(reset);
    cell
}

/// The first `count` cells of the row that begins at zone `from`, with a blank between two cells.
pub open spec fn row_cells(distance_mm: Seq<i16>, from: int, count: nat) -> Seq<char>
    decreases count,
{
    if count == 0 {
        Seq::empty()
    } else if count == 1 {
        padded_cell(distance_mm[from] as int)
    } else {
        row_cells(distance_mm, from, (count - 1) as nat) + seq![' '] + padded_cell(
            distance_mm[from + count - 1] as int,
        )
    }
}

/// The picture of a measurement: eight rows of eight cells.
pub open spec fn picture(distance_mm: Seq<i16>) -> Seq<Seq<char>> {
    Seq::new(8, |row: int| row_cells(distance_mm, row * 8, 8))
}

/// Row `row` of the picture of a measurement.
pub fn distance_row(distance_mm: &[i16; 64], row: usize) -> (line: String)
    requires
        row < 8,
    ensures
        line@ == picture(distance_mm@)[row as int],
{
    let from: usize = row * ROW_ZONES;
    let mut line = String::new();
    let mut count: usize = 0;
    proof {
        reveal_strlit(" ");
        assert(" "@ =~= seq![' ']);
    }
    while count < ROW_ZONES
        invariant
            from <= 56,
            count <= ROW_ZONES,
            distance_mm@.len() == 64,
            line@ == row_cells(distance_mm@, from as int, count as nat),
            " "@ == seq![' '],
        decreases ROW_ZONES - count,
    {
        let cell = left_pad(distance_mm[from + count]);
        if count > 0 {
            line.append(" ");
        }
        line.append(cell.as_str());
        assert(line@ =~= row_cells(distance_mm@, from as int, (count + 1) as nat));
        count = count + 1;
    }
    line
}

/// The picture of a measurement, row by row.
pub fn distance_picture(distance_mm: &[i16; 64]) -> (rows: Vec<String>)
    ensures
        text::string_views(rows@) == picture(distance_mm@),
{
    let mut rows: Vec<String> = Vec::new();
    let mut row: usize = 0;
    while row < 8
        invariant
            row <= 8,
            rows.len() == row,
            forall|i: int| 0 <= i < row ==> (#[trigger] rows@[i])@ == picture(distance_mm@)[i],
        decreases 8 - row,
    {
        rows.push(distance_row(distance_mm, row));
        row = row + 1;
    }
    assert(text::string_views(rows@) =~= picture(distance_mm@));
    rows
}

/// What stands before the cell of column `column` in the row that begins at zone `from`.
pub open spec fn before_cell(distance_mm: Seq<i16>, from: int, column: nat) -> Seq<char> {
    if column == 0 {
        Seq::empty()
    } else {
        row_cells(distance_mm, from, column) + seq![' ']
    }
}

/// More cells in a row leave those before them as they are.
proof fn lemma_row_grows(distance_mm: Seq<i16>, from: int, few: nat, many: nat)
    requires
        few <= many,
    ensures
        text::begins_with(
            row_cells(distance_mm, from, many),
            row_cells(distance_mm, from, few),
        ),
    decreases many,
{
    let short = row_cells(distance_mm, from, few);
    let long = row_cells(distance_mm, from, many);
    if few == many {
        assert(long.take(short.len() as int) =~= short);
    } else if few == 0 {
        assert(long.take(0) =~= short);
    } else {
        let shorter = row_cells(distance_mm, from, (many - 1) as nat);
        lemma_row_grows(distance_mm, from, few, (many - 1) as nat);
        assert(long.take(short.len() as int) =~= shorter.take(short.len() as int));
    }
}

/// Every zone is shown at its place: zone by zone the picture goes through the rows, and through
/// each of them from left to right.
pub proof fn law_picture_shows_every_zone(distance_mm: Seq<i16>, zone: int)
    requires
        distance_mm.len() == ZONES,
        0 <= zone < ZONES,
    ensures
        picture(distance_mm).len() == 8,
        0 <= zone / 8 < 8,
        text::begins_with(
            picture(distance_mm)[zone / 8],
            before_cell(distance_mm, zone - zone % 8, (zone % 8) as nat) + padded_cell(
                distance_mm[zone] as int,
            ),
        ),
{
    let from = zone - zone % 8;
    let column = (zone % 8) as nat;
    lemma_row_grows(distance_mm, from, column + 1, 8);
    assert(before_cell(distance_mm, from, column) + padded_cell(distance_mm[zone] as int)
        =~= row_cells(distance_mm, from, column + 1));
}

/// A row is determined by the cells in it.
proof fn lemma_row_reads_only_its_cells(a: Seq<i16>, b: Seq<i16>, from: int, count: nat)
    requires
        forall|i: int| from <= i < from + count ==> a[i] == b[i],
    ensures
        row_cells(a, from, count) == row_cells(b, from, count),
    decreases count,
{
    if count > 1 {
        lemma_row_reads_only_its_cells(a, b, from, (count - 1) as nat);
    }
}

/// A zone is shown in its row only: measured differently, it leaves the other rows as they are.
pub proof fn law_zone_shows_in_its_row_only(
    distance_mm: Seq<i16>,
    zone: int,
    distance: i16,
    row: int,
)
    requires
        distance_mm.len() == ZONES,
        0 <= zone < ZONES,
        0 <= row < 8,
        row != zone / 8,
    ensures
        picture(distance_mm.update(zone, distance))[row] == picture(distance_mm)[row],
{
    lemma_row_reads_only_its_cells(distance_mm.update(zone, distance), distance_mm, row * 8, 8);
}

/// The line that sums a measurement up: distance, status and temperature of the first zone, and
/// the number of zones.
pub open spec fn summary(distance_mm: int, status: int, temperature: int) -> Seq<char> {
    "VL53L8CX distance: "@ + text::signed_decimal(distance_mm) + " mm, status: "@
        + text::signed_decimal(status) + ", temperature: "@ + text::signed_decimal(temperature)
        + ", (64)"@
}

/// The line that sums a measurement up.
pub fn distance_summary(distance_mm: i16, status: u8, temperature: i8) -> (line: String)
    ensures
        line@ == summary(distance_mm as int, status as int, temperature as int),
{
    let mut line = String::new();
    line.append("VL53L8CX distance: ");
    text::append_zero_padded(&mut line, distance_mm, 0);
    line.append(" mm, status: ");
    text::append_zero_padded(&mut line, status as i16, 0);
    line.append(", temperature: ");
    text::append_zero_padded(&mut line, temperature as i16, 0);
    line.append(", (64)");
    proof {
        text::lemma_width_zero(distance_mm as int);
        text::lemma_width_zero(status as int);
        text::lemma_width_zero(temperature as int);
        assert(line@ =~= summary(distance_mm as int, status as int, temperature as int));
    }
    line
}

/// The whole order of the sensor's calls. The sensor is told to measure 64 zones; a call that fails
/// before it measures ends the task with a sensor error. From then on a measurement is fetched
/// exactly when it is ready, and the next look follows after 20 milliseconds.
pub proof fn law_sensor_calls(call: SensorCall, reply: SensorReply, step: SensorStep)
    requires
        call_ensures(sensor_step, (call, reply), step),
    ensures
        call is Init && reply.status == 0 ==> step.next == SensorCall::SetResolution(64),
        call is SetResolution && reply.status == 0 ==> step.next == SensorCall::StartRanging,
        call is StartRanging && reply.status == 0 ==> step.next == SensorCall::CheckReady,
        (call is Init || call is SetResolution || call is StartRanging) && reply.status != 0
            ==> step.next == SensorCall::Stopped && step.announce == Some(SystemState::SensorError),
        call is CheckReady && reply.status == 0 && reply.ready != 0 ==> step.next
            == SensorCall::GetData,
        call is CheckReady && (reply.status != 0 || reply.ready == 0) ==> step.next
            == SensorCall::Pause(20_000),
        call is GetData ==> step.next == SensorCall::Pause(20_000),
        call is Pause ==> step.next == SensorCall::CheckReady,
        call is Stopped ==> step.next == SensorCall::Stopped,
        step.show <==> call is GetData && reply.status == 0,
        step.announce is Some <==> !(call is Stopped) && step.next is Stopped,
{
}

/// The task begins with the call that loads the sensor's program.
pub proof fn law_sensor_begins_with_program(call: SensorCall)
    requires
        call_ensures(sensor_begin, (), call),
    ensures
        call is Init,
{
}

/// A distance is shown in the colour of its band, at least four characters wide, and the colour is
/// reset behind it.
pub proof fn law_cell_shows_distance(number: i16, cell: CellText)
    requires
        call_ensures(left_pad, (number,), cell),
    ensures
        number <= 49 ==> bounded::cell_text(cell) == "\x1b[38;5;196m"@
            + text::zero_padded(number as int, 4) + "\x1b[0m"@,
        50 <= number <= 99 ==> bounded::cell_text(cell) == "\x1b[38;5;208m"@
            + text::zero_padded(number as int, 4) + "\x1b[0m"@,
        100 <= number <= 199 ==> bounded::cell_text(cell) == "\x1b[38;5;226m"@
            + text::zero_padded(number as int, 4) + "\x1b[0m"@,
        200 <= number <= 399 ==> bounded::cell_text(cell) == "\x1b[38;5;46m"@
            + text::zero_padded(number as int, 4) + "\x1b[0m"@,
        400 <= number <= 799 ==> bounded::cell_text(cell) == "\x1b[38;5;51m"@
            + text::zero_padded(number as int, 4) + "\x1b[0m"@,
        800 <= number <= 1599 ==> bounded::cell_text(cell) == "\x1b[38;5;21m"@
            + text::zero_padded(number as int, 4) + "\x1b[0m"@,
        1600 <= number ==> bounded::cell_text(cell) == "\x1b[38;5;129m"@
            + text::zero_padded(number as int, 4) + "\x1b[0m"@,
{
}

/// The number in a cell is the distance: read as the cell shows it, after the colour and the minus
/// that a negative one has, it gives the distance again.
pub proof fn law_cell_reads_back(number: i16, cell: CellText)
    requires
        call_ensures(left_pad, (number,), cell),
    ensures
        ({
            let shown = bounded::cell_text(cell);
            let color = distance_color(number as int).len() as int;
            let from = if number < 0 {
                color + 1
            } else {
                color
            };
            &&& number < 0 ==> shown[color] == '-'
            &&& shown.len() >= color + 4 + 4
            &&& text::decimal_value(shown.subrange(from, shown.len() - 4)) == if number < 0 {
                -number
            } else {
                number as int
            }
        }),
{
    let n = text::magnitude(number as int);
    let shown = bounded::cell_text(cell);
    let color = distance_color(number as int);
    let width: nat = if number < 0 {
        3
    } else {
        4
    };
    let from = if number < 0 {
        color.len() as int + 1
    } else {
        color.len() as int
    };
    reveal_strlit("\x1b[0m");
    text::law_decimal_reads_back(n);
    text::lemma_decimal_digits(n);
    text::law_padding_is_zeros(n, 4);
    text::law_padding_is_zeros(n, 3);
    let padded = text::zero_padded(n as int, width);
    assert(text::signed_decimal(n as int) == text::decimal(n));
    let missing = (padded.len() - text::decimal(n).len()) as nat;
    assert(padded =~= text::zeros(missing) + text::decimal(n));
    text::lemma_leading_zeros(missing, text::decimal(n));
    assert(shown.subrange(from, shown.len() - 4) =~= padded);
}

/// A row of eight cells, written out.
proof fn lemma_row_written_out(d: Seq<i16>, from: int)
    ensures
        row_cells(d, from, 8) == padded_cell(d[from] as int)
            + seq![' '] + padded_cell(d[from + 1] as int)
            + seq![' '] + padded_cell(d[from + 2] as int)
            + seq![' '] + padded_cell(d[from + 3] as int)
            + seq![' '] + padded_cell(d[from + 4] as int)
            + seq![' '] + padded_cell(d[from + 5] as int)
            + seq![' '] + padded_cell(d[from + 6] as int)
            + seq![' '] + padded_cell(d[from + 7] as int),
{
    assert(row_cells(d, from, 2) == row_cells(d, from, 1) + seq![' '] + padded_cell(
        d[from + 1] as int,
    ));
    assert(row_cells(d, from, 3) == row_cells(d, from, 2) + seq![' '] + padded_cell(
        d[from + 2] as int,
    ));
    assert(row_cells(d, from, 4) == row_cells(d, from, 3) + seq![' '] + padded_cell(
        d[from + 3] as int,
    ));
    assert(row_cells(d, from, 5) == row_cells(d, from, 4) + seq![' '] + padded_cell(
        d[from + 4] as int,
    ));
    assert(row_cells(d, from, 6) == row_cells(d, from, 5) + seq![' '] + padded_cell(
        d[from + 5] as int,
    ));
    assert(row_cells(d, from, 7) == row_cells(d, from, 6) + seq![' '] + padded_cell(
        d[from + 6] as int,
    ));
    assert(row_cells(d, from, 8) == row_cells(d, from, 7) + seq![' '] + padded_cell(
        d[from + 7] as int,
    ));
}

/// A row of the picture shows eight neighbouring zones, from left to right, with a blank between
/// two of them.
pub proof fn law_row_shows_neighbours(distance_mm: [i16; 64], row: usize, line: String)
    requires
        call_ensures(distance_row, (&distance_mm, row), line),
        row < 8,
    ensures
        line@ == padded_cell(distance_mm@[8 * row] as int)
            + seq![' '] + padded_cell(distance_mm@[8 * row + 1] as int)
            + seq![' '] + padded_cell(distance_mm@[8 * row + 2] as int)
            + seq![' '] + padded_cell(distance_mm@[8 * row + 3] as int)
            + seq![' '] + padded_cell(distance_mm@[8 * row + 4] as int)
            + seq![' '] + padded_cell(distance_mm@[8 * row + 5] as int)
            + seq![' '] + padded_cell(distance_mm@[8 * row + 6] as int)
            + seq![' '] + padded_cell(distance_mm@[8 * row + 7] as int),
{
    lemma_row_written_out(distance_mm@, 8 * row);
}

/// The picture has eight rows, and each of them shows the eight zones that follow those of the rows
/// before it.
pub proof fn law_picture_shows_rows(distance_mm: [i16; 64], rows: Vec<String>, row: int)
    requires
        call_ensures(distance_picture, (&distance_mm,), rows),
        0 <= row < 8,
    ensures
        rows@.len() == 8,
        rows@[row]@ == padded_cell(distance_mm@[8 * row] as int)
            + seq![' '] + padded_cell(distance_mm@[8 * row + 1] as int)
            + seq![' '] + padded_cell(distance_mm@[8 * row + 2] as int)
            + seq![' '] + padded_cell(distance_mm@[8 * row + 3] as int)
            + seq![' '] + padded_cell(distance_mm@[8 * row + 4] as int)
            + seq![' '] + padded_cell(distance_mm@[8 * row + 5] as int)
            + seq![' '] + padded_cell(distance_mm@[8 * row + 6] as int)
            + seq![' '] + padded_cell(distance_mm@[8 * row + 7] as int),
{
    assert(text::string_views(rows@).len() == rows@.len());
    assert(text::string_views(rows@)[row] == rows@[row]@);
    lemma_row_written_out(distance_mm@, 8 * row);
}

/// The line that sums a measurement up names distance, status and temperature, in this order, as
/// plain decimal numbers.
pub proof fn law_summary_names_values(distance_mm: i16, status: u8, temperature: i8, line: String)
    requires
        call_ensures(distance_summary, (distance_mm, status, temperature), line),
    ensures
        line@ == "VL53L8CX distance: "@ + text::signed_decimal(distance_mm as int)
            + " mm, status: "@ + text::decimal(status as nat) + ", temperature: "@
            + text::signed_decimal(temperature as int) + ", (64)"@,
{
    text::law_padding_is_zeros(status as nat, 0);
}

} // verus!
