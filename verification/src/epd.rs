use crate::display::Color;
use vstd::prelude::*;

verus! {

pub const EPD_WIDTH: usize = 800;

pub const EPD_HEIGHT: usize = 480;

pub const EPD_ROW_BYTES: usize = 400;

pub const EPD_FRAME_BYTES: usize = 192000;

/// How many commands the panel's power-up sequence sends.
pub const INIT_STEP_COUNT: usize = 13;

/// Why a transfer to the panel stopped.
#[derive(Clone, Copy, Debug, PartialEq, Eq, Structural)]
pub enum EpdError {
    BusyTimeout,
    Transport,
}

impl EpdError {
    pub open spec fn spec_text(self) -> Seq<char> {
        match self {
            EpdError::BusyTimeout => "busy-timeout"@,
            EpdError::Transport => "transport"@,
        }
    }

    /// The short name the device logs for this error.
    pub fn text(self) -> (text: &'static str)
        ensures
            text@ == self.spec_text(),
    {
        match self {
            EpdError::BusyTimeout => "busy-timeout",
            EpdError::Transport => "transport",
        }
    }
}

/// One thing done on the wires to the panel.
pub enum BusOp {
    Reset,
    WaitUntilReady,
    Delay(u32),
    Command(u8),
    Data(Seq<u8>),
}

/// The wires to the panel controller. Each call is recorded in `operations`,
/// whether it succeeds or not.
pub trait EpdBus {
    /// Everything done on the bus so far, in order.
    spec fn operations(&self) -> Seq<BusOp>;

    /// The bus's answer to each operation so far, in order; a delay always
    /// succeeds.
    spec fn answers(&self) -> Seq<Result<(), EpdError>>;

    fn reset(&mut self) -> (result: Result<(), EpdError>)
        ensures
            final(self).operations() == old(self).operations().push(BusOp::Reset),
            final(self).answers() == old(self).answers().push(result),
    ;

    fn wait_until_ready(&mut self) -> (result: Result<(), EpdError>)
        ensures
            final(self).operations() == old(self).operations().push(BusOp::WaitUntilReady),
            final(self).answers() == old(self).answers().push(result),
    ;

    fn delay_ms(&mut self, milliseconds: u32)
        ensures
            final(self).operations() == old(self).operations().push(BusOp::Delay(milliseconds)),
            final(self).answers() == old(self).answers().push(Ok(())),
    ;

    fn command(&mut self, command: u8) -> (result: Result<(), EpdError>)
        ensures
            final(self).operations() == old(self).operations().push(BusOp::Command(command)),
            final(self).answers() == old(self).answers().push(result),
    ;

    fn data(&mut self, data: &[u8]) -> (result: Result<(), EpdError>)
        ensures
            final(self).operations() == old(self).operations().push(BusOp::Data(data@)),
            final(self).answers() == old(self).answers().push(result),
    ;
}

/// Every answer the bus gave after `before` was a success.
pub open spec fn answered_ok(before: Seq<Result<(), EpdError>>, after: Seq<Result<(), EpdError>>) -> bool {
    &&& after.len() >= before.len()
    &&& forall|i: int| 0 <= i < before.len() ==> #[trigger] after[i] == before[i]
    &&& forall|i: int| before.len() <= i < after.len() ==> (#[trigger] after[i]) is Ok
}

/// After `before` the bus answered with successes and then with the failure
/// it gave last.
pub open spec fn answered_then_failed(before: Seq<Result<(), EpdError>>, after: Seq<Result<(), EpdError>>) -> bool {
    &&& after.len() > before.len()
    &&& forall|i: int| 0 <= i < before.len() ==> #[trigger] after[i] == before[i]
    &&& forall|i: int| before.len() <= i < after.len() - 1 ==> (#[trigger] after[i]) is Ok
    &&& after.last() is Err
}

/// An operation as a recording bus keeps it.
#[derive(Clone, Debug, PartialEq, Eq)]
pub enum BusEvent {
    Reset,
    WaitUntilReady,
    Delay(u32),
    Command(u8),
    Data(Vec<u8>),
}

impl BusEvent {
    pub open spec fn op(self) -> BusOp {
        match self {
            BusEvent::Reset => BusOp::Reset,
            BusEvent::WaitUntilReady => BusOp::WaitUntilReady,
            BusEvent::Delay(milliseconds) => BusOp::Delay(milliseconds),
            BusEvent::Command(command) => BusOp::Command(command),
            BusEvent::Data(bytes) => BusOp::Data(bytes@),
        }
    }
}

/// A bus that keeps every operation in `events` instead of driving wires, for
/// running the driver away from the device. When the operation at position
/// `fail_at` is a reset, a wait, a command or data, it reports a transport
/// failure.
pub struct RecordingBus {
    pub events: Vec<BusEvent>,
    pub fail_at: Option<usize>,
}

impl RecordingBus {
    /// A bus on which every operation succeeds.
    pub fn new() -> (bus: Self)
        ensures
            bus.events@.len() == 0,
            bus.fail_at is None,
    {
        RecordingBus { events: Vec::new(), fail_at: None }
    }

    /// A bus whose operation at `position` fails.
    pub fn failing_at(position: usize) -> (bus: Self)
        ensures
            bus.events@.len() == 0,
            bus.fail_at == Some(position),
    {
        RecordingBus { events: Vec::new(), fail_at: Some(position) }
    }

    fn record(&mut self, event: BusEvent) -> (result: Result<(), EpdError>)
        requires
            !(event is Delay),
        ensures
            final(self).events@ == old(self).events@.push(event),
            final(self).fail_at == old(self).fail_at,
            result is Err <==> old(self).fail_at == Some(old(self).events@.len() as usize),
            result == recorded_answer(final(self).events@, final(self).fail_at, old(self).events@.len() as int),
    {
        let position = self.events.len();
        self.events.push(event);
        if self.fail_at == Some(position) {
            Err(EpdError::Transport)
        } else {
            Ok(())
        }
    }
}

proof fn lemma_recorded_answers(before: Seq<BusEvent>, event: BusEvent, fail_at: Option<usize>)
    ensures
        Seq::new((before.len() + 1) as nat, |i: int| recorded_answer(before.push(event), fail_at, i)) == Seq::new(
            before.len(),
            |i: int| recorded_answer(before, fail_at, i),
        ).push(recorded_answer(before.push(event), fail_at, before.len() as int)),
{
    assert(Seq::new((before.len() + 1) as nat, |i: int| recorded_answer(before.push(event), fail_at, i)) =~= Seq::new(
        before.len(),
        |i: int| recorded_answer(before, fail_at, i),
    ).push(recorded_answer(before.push(event), fail_at, before.len() as int)));
}

proof fn lemma_recorded_op(before: Seq<BusEvent>, event: BusEvent)
    ensures
        before.push(event).map_values(|e: BusEvent| e.op()) == before.map_values(|e: BusEvent| e.op()).push(
            event.op(),
        ),
{
    assert(before.push(event).map_values(|e: BusEvent| e.op()) =~= before.map_values(|e: BusEvent| e.op()).push(
        event.op(),
    ));
}

/// The answer a recording bus gives to its operation at `position`.
pub open spec fn recorded_answer(events: Seq<BusEvent>, fail_at: Option<usize>, position: int) -> Result<(), EpdError> {
    if fail_at == Some(position as usize) && !(events[position] is Delay) {
        Err(EpdError::Transport)
    } else {
        Ok(())
    }
}

impl EpdBus for RecordingBus {
    open spec fn operations(&self) -> Seq<BusOp> {
        self.events@.map_values(|e: BusEvent| e.op())
    }

    open spec fn answers(&self) -> Seq<Result<(), EpdError>> {
        Seq::new(self.events@.len(), |i: int| recorded_answer(self.events@, self.fail_at, i))
    }

    fn reset(&mut self) -> (result: Result<(), EpdError>) {
        proof {
            lemma_recorded_op(self.events@, BusEvent::Reset);
            lemma_recorded_answers(self.events@, BusEvent::Reset, self.fail_at);
        }
        self.record(BusEvent::Reset)
    }

    fn wait_until_ready(&mut self) -> (result: Result<(), EpdError>) {
        proof {
            lemma_recorded_op(self.events@, BusEvent::WaitUntilReady);
            lemma_recorded_answers(self.events@, BusEvent::WaitUntilReady, self.fail_at);
        }
        self.record(BusEvent::WaitUntilReady)
    }

    fn delay_ms(&mut self, milliseconds: u32) {
        proof {
            lemma_recorded_op(self.events@, BusEvent::Delay(milliseconds));
            lemma_recorded_answers(self.events@, BusEvent::Delay(milliseconds), self.fail_at);
        }
        self.events.push(BusEvent::Delay(milliseconds));
    }

    fn command(&mut self, command: u8) -> (result: Result<(), EpdError>) {
        proof {
            lemma_recorded_op(self.events@, BusEvent::Command(command));
            lemma_recorded_answers(self.events@, BusEvent::Command(command), self.fail_at);
        }
        self.record(BusEvent::Command(command))
    }

    fn data(&mut self, data: &[u8]) -> (result: Result<(), EpdError>) {
        let bytes = vstd::slice::slice_to_vec(data);
        proof {
            lemma_recorded_op(self.events@, BusEvent::Data(bytes));
            lemma_recorded_answers(self.events@, BusEvent::Data(bytes), self.fail_at);
        }
        self.record(BusEvent::Data(bytes))
    }
}

/// Hands out the packed bytes of one panel row at a time: the rows of
/// `panel_rows`, from the top of the panel down.
pub trait EpdRowSource {
    spec fn panel_rows(&self) -> Seq<Seq<u8>>;

    /// Whether the source hands out every row without fail.
    spec fn fills(&self) -> bool;

    fn fill_panel_row(&mut self, panel_y: usize, row: &mut [u8; EPD_ROW_BYTES]) -> (result: Result<(), EpdError>)
        ensures
            final(self).panel_rows() == old(self).panel_rows(),
            final(self).fills() == old(self).fills(),
            old(self).fills() ==> result is Ok,
            result is Ok && panel_y < EPD_HEIGHT ==> final(row)@ == old(self).panel_rows()[panel_y as int],
    ;
}

/// The controller's four-bit code for an ink.
pub open spec fn spec_epd_color_code(color: Color) -> u8 {
    match color {
        Color::Black => 0,
        Color::White => 1,
        Color::Yellow => 2,
        Color::Red => 3,
        Color::Blue => 5,
        Color::Green => 6,
    }
}

pub fn epd_color_code(color: Color) -> (code: u8)
    ensures
        code == spec_epd_color_code(color),
        code < 16,
{
    match color {
        Color::Black => 0,
        Color::White => 1,
        Color::Yellow => 2,
        Color::Red => 3,
        Color::Blue => 5,
        Color::Green => 6,
    }
}

/// Two neighbouring pixels in one byte: the left one in the high nibble.
pub open spec fn spec_pack_epd_pixels(left: Color, right: Color) -> u8 {
    (spec_epd_color_code(left) * 16 + spec_epd_color_code(right)) as u8
}

pub fn pack_epd_pixels(left: Color, right: Color) -> (packed: u8)
    ensures
        packed == spec_pack_epd_pixels(left, right),
        packed / 16 == spec_epd_color_code(left),
        packed % 16 == spec_epd_color_code(right),
{
    epd_color_code(left) * 16 + epd_color_code(right)
}

/// The byte of a packed frame that holds the panel point `(x, y)`.
pub open spec fn packed_byte_index(x: int, y: int) -> int {
    y * EPD_ROW_BYTES + x / 2
}

/// The four-bit code stored for the panel point `(x, y)` of a packed frame.
pub open spec fn packed_code_at(frame: Seq<u8>, x: int, y: int) -> int {
    let byte = frame[packed_byte_index(x, y)];
    if x % 2 == 0 {
        (byte / 16) as int
    } else {
        (byte % 16) as int
    }
}

/// A byte with the nibble of the panel column `x` replaced by `code`.
pub open spec fn with_nibble(byte: u8, x: int, code: u8) -> u8 {
    if x % 2 == 0 {
        (byte % 16 + code * 16) as u8
    } else {
        ((byte / 16) * 16 + code) as u8
    }
}

pub open spec fn panel_point(x: int, y: int) -> bool {
    0 <= x < EPD_WIDTH && 0 <= y < EPD_HEIGHT
}

/// Sets one panel pixel in a packed frame; a frame of the wrong size or a point
/// off the panel leaves the frame as it was and answers `false`.
pub fn set_packed_frame_pixel(frame: &mut [u8], x: usize, y: usize, color: Color) -> (written: bool)
    ensures
        written == (old(frame)@.len() == EPD_FRAME_BYTES && panel_point(x as int, y as int)),
        final(frame)@ == (if written {
            old(frame)@.update(
                packed_byte_index(x as int, y as int),
                with_nibble(
                    old(frame)@[packed_byte_index(x as int, y as int)],
                    x as int,
                    spec_epd_color_code(color),
                ),
            )
        } else {
            old(frame)@
        }),
{
    if frame.len() != EPD_FRAME_BYTES || x >= EPD_WIDTH || y >= EPD_HEIGHT {
        return false;
    }
    let index = y * EPD_ROW_BYTES + x / 2;
    let code = epd_color_code(color);
    let byte = frame[index];
    if x % 2 == 0 {
        frame[index] = byte % 16 + code * 16;
    } else {
        frame[index] = (byte / 16) * 16 + code;
    }
    true
}

/// The panel point that shows the logical screen point `(x, y)`: the panel is
/// mounted upside down.
pub open spec fn panel_x_of(x: int) -> int {
    EPD_WIDTH - 1 - x
}

pub open spec fn panel_y_of(y: int) -> int {
    EPD_HEIGHT - 1 - y
}

/// The four-bit code shown at the logical screen point `(x, y)`.
pub open spec fn logical_code(frame: Seq<u8>, x: int, y: int) -> int {
    packed_code_at(frame, panel_x_of(x), panel_y_of(y))
}

/// A packed frame with the logical point `(x, y)` set to `color`.
pub open spec fn logical_pixel_update(frame: Seq<u8>, x: int, y: int, color: Color) -> Seq<u8> {
    let index = packed_byte_index(panel_x_of(x), panel_y_of(y));
    frame.update(index, with_nibble(frame[index], panel_x_of(x), spec_epd_color_code(color)))
}

/// Setting one logical point changes that point's code and no other.
pub proof fn lemma_logical_pixel_update(frame: Seq<u8>, x: int, y: int, color: Color)
    requires
        frame.len() == EPD_FRAME_BYTES,
        panel_point(x, y),
    ensures
        logical_pixel_update(frame, x, y, color).len() == EPD_FRAME_BYTES,
        logical_code(logical_pixel_update(frame, x, y, color), x, y) == spec_epd_color_code(color),
        forall|x2: int, y2: int|
            panel_point(x2, y2) && !(x2 == x && y2 == y) ==> #[trigger] logical_code(
                logical_pixel_update(frame, x, y, color),
                x2,
                y2,
            ) == logical_code(frame, x2, y2),
{
    let px = panel_x_of(x);
    let py = panel_y_of(y);
    let index = packed_byte_index(px, py);
    let code = spec_epd_color_code(color);
    let byte = frame[index];
    let updated = logical_pixel_update(frame, x, y, color);
    assert(0 <= index < EPD_FRAME_BYTES);
    assert(updated[index] == with_nibble(byte, px, code));
    assert forall|x2: int, y2: int|
        panel_point(x2, y2) && !(x2 == x && y2 == y) implies #[trigger] logical_code(
            updated,
            x2,
            y2,
        ) == logical_code(frame, x2, y2) by {
        let qx = panel_x_of(x2);
        let qy = panel_y_of(y2);
        let other = packed_byte_index(qx, qy);
        assert(0 <= other < EPD_FRAME_BYTES);
        if other != index {
            assert(updated[other] == frame[other]);
        } else {
            assert(qy == py);
            assert(qx / 2 == px / 2);
            assert(qx % 2 != px % 2);
        }
    }
}

/// Sets the pixel that shows the logical point `(x, y)`.
pub fn set_logical_packed_frame_pixel(frame: &mut [u8], x: usize, y: usize, color: Color) -> (written: bool)
    ensures
        written == (old(frame)@.len() == EPD_FRAME_BYTES && panel_point(x as int, y as int)),
        final(frame)@ == (if written {
            logical_pixel_update(old(frame)@, x as int, y as int, color)
        } else {
            old(frame)@
        }),
{
    if x >= EPD_WIDTH || y >= EPD_HEIGHT {
        return false;
    }
    set_packed_frame_pixel(frame, EPD_WIDTH - 1 - x, EPD_HEIGHT - 1 - y, color)
}

/// The colour bars of the self-test, top to bottom.
pub open spec fn spec_test_bar(index: int) -> Color {
    if index == 0 {
        Color::White
    } else if index == 1 {
        Color::Black
    } else if index == 2 {
        Color::Yellow
    } else if index == 3 {
        Color::Red
    } else if index == 4 {
        Color::Blue
    } else {
        Color::Green
    }
}

/// The bar that the logical row `y` of the self-test lies in: six equal bands.
pub open spec fn spec_test_bar_for_row(y: int) -> Color {
    let band = y / (EPD_HEIGHT / 6) as int;
    spec_test_bar(if band > 5 { 5 } else { band })
}

/// Fills a panel row with the self-test bar of logical row `y`.
pub fn fill_test_pattern_row(y: usize, row: &mut [u8; EPD_ROW_BYTES])
    ensures
        forall|i: int|
            0 <= i < EPD_ROW_BYTES ==> #[trigger] final(row)@[i] == spec_pack_epd_pixels(
                spec_test_bar_for_row(y as int),
                spec_test_bar_for_row(y as int),
            ),
{
    let band_height: usize = EPD_HEIGHT / 6;
    let band = y / band_height;
    let index = if band > 5 { 5 } else { band };
    let color = test_bar(index);
    let packed = pack_epd_pixels(color, color);
    let mut i: usize = 0;
    while i < EPD_ROW_BYTES
        invariant
            i <= EPD_ROW_BYTES,
            row@.len() == EPD_ROW_BYTES,
            packed == spec_pack_epd_pixels(spec_test_bar_for_row(y as int), spec_test_bar_for_row(y as int)),
            forall|j: int| 0 <= j < i ==> #[trigger] row@[j] == packed,
        decreases EPD_ROW_BYTES - i,
    {
        row[i] = packed;
        i = i + 1;
    }
}

fn test_bar(index: usize) -> (color: Color)
    ensures
        color == spec_test_bar(index as int),
{
    match index {
        0 => Color::White,
        1 => Color::Black,
        2 => Color::Yellow,
        3 => Color::Red,
        4 => Color::Blue,
        _ => Color::Green,
    }
}

/// The command bytes and data bytes of the power-up sequence, step by step.
pub open spec fn spec_init_step(index: int) -> (u8, Seq<u8>) {
    if index == 0 {
        (0xAA, seq![0x49u8, 0x55, 0x20, 0x08, 0x09, 0x18])
    } else if index == 1 {
        (0x01, seq![0x3Fu8])
    } else if index == 2 {
        (0x00, seq![0x5Fu8, 0x69])
    } else if index == 3 {
        (0x03, seq![0x00u8, 0x54, 0x00, 0x44])
    } else if index == 4 {
        (0x05, seq![0x40u8, 0x1F, 0x1F, 0x2C])
    } else if index == 5 {
        (0x06, seq![0x6Fu8, 0x1F, 0x17, 0x49])
    } else if index == 6 {
        (0x08, seq![0x6Fu8, 0x1F, 0x1F, 0x22])
    } else if index == 7 {
        (0x30, seq![0x03u8])
    } else if index == 8 {
        (0x50, seq![0x3Fu8])
    } else if index == 9 {
        (0x60, seq![0x02u8, 0x00])
    } else if index == 10 {
        (0x61, seq![0x03u8, 0x20, 0x01, 0xE0])
    } else if index == 11 {
        (0x84, seq![0x01u8])
    } else {
        (0xE3, seq![0x2Fu8])
    }
}

/// One step of the power-up sequence.
pub fn init_step(index: usize) -> (step: (u8, Vec<u8>))
    requires
        index < INIT_STEP_COUNT,
    ensures
        step.0 == spec_init_step(index as int).0,
        step.1@ == spec_init_step(index as int).1,
{
    let step = match index {
        0 => (0xAAu8, vec![0x49u8, 0x55, 0x20, 0x08, 0x09, 0x18]),
        1 => (0x01u8, vec![0x3Fu8]),
        2 => (0x00u8, vec![0x5Fu8, 0x69]),
        3 => (0x03u8, vec![0x00u8, 0x54, 0x00, 0x44]),
        4 => (0x05u8, vec![0x40u8, 0x1F, 0x1F, 0x2C]),
        5 => (0x06u8, vec![0x6Fu8, 0x1F, 0x17, 0x49]),
        6 => (0x08u8, vec![0x6Fu8, 0x1F, 0x1F, 0x22]),
        7 => (0x30u8, vec![0x03u8]),
        8 => (0x50u8, vec![0x3Fu8]),
        9 => (0x60u8, vec![0x02u8, 0x00]),
        10 => (0x61u8, vec![0x03u8, 0x20, 0x01, 0xE0]),
        11 => (0x84u8, vec![0x01u8]),
        _ => (0xE3u8, vec![0x2Fu8]),
    };
    assert(step.1@ =~= spec_init_step(index as int).1);
    step
}

/// The booster soft-start bytes sent again before the refresh.
pub fn booster_soft_start() -> (bytes: Vec<u8>)
    ensures
        bytes@ == seq![0x6Fu8, 0x1F, 0x17, 0x49],
{
    let bytes = vec![0x6Fu8, 0x1F, 0x17, 0x49];
    assert(bytes@ =~= seq![0x6Fu8, 0x1F, 0x17, 0x49]);
    bytes
}

/// The operations of the power-up sequence, by position: reset, wait, a pause,
/// each step's command and data, then power on and wait.
pub open spec fn init_op(i: int) -> BusOp {
    if i == 0 {
        BusOp::Reset
    } else if i == 1 {
        BusOp::WaitUntilReady
    } else if i == 2 {
        BusOp::Delay(50)
    } else if i < 3 + 2 * INIT_STEP_COUNT {
        let step = spec_init_step((i - 3) / 2);
        if (i - 3) % 2 == 0 {
            BusOp::Command(step.0)
        } else {
            BusOp::Data(step.1)
        }
    } else if i == 3 + 2 * INIT_STEP_COUNT {
        BusOp::Command(0x04)
    } else if i == 4 + 2 * INIT_STEP_COUNT {
        BusOp::Delay(100)
    } else {
        BusOp::WaitUntilReady
    }
}

/// How many operations the power-up sequence takes.
pub open spec fn init_len() -> int {
    6 + 2 * INIT_STEP_COUNT
}

/// The operations after the rows: power on, set the booster, refresh, power off.
pub open spec fn refresh_op(i: int) -> BusOp {
    if i == 0 {
        BusOp::Command(0x04)
    } else if i == 1 {
        BusOp::Delay(100)
    } else if i == 2 {
        BusOp::WaitUntilReady
    } else if i == 3 {
        BusOp::Command(0x06)
    } else if i == 4 {
        BusOp::Data(seq![0x6Fu8, 0x1F, 0x17, 0x49])
    } else if i == 5 {
        BusOp::Command(0x12)
    } else if i == 6 {
        BusOp::Data(seq![0x00u8])
    } else if i == 7 {
        BusOp::Delay(100)
    } else if i == 8 {
        BusOp::WaitUntilReady
    } else if i == 9 {
        BusOp::Command(0x02)
    } else if i == 10 {
        BusOp::Data(seq![0x00u8])
    } else if i == 11 {
        BusOp::Delay(100)
    } else {
        BusOp::WaitUntilReady
    }
}

pub open spec fn refresh_len() -> int {
    13
}

/// Operation `i` of drawing a frame whose panel rows are `rows`: the power-up
/// sequence, the start of the frame data, one data transfer a row from the top
/// of the panel down, then the refresh.
pub open spec fn frame_op(rows: Seq<Seq<u8>>, i: int) -> BusOp {
    if i < init_len() {
        init_op(i)
    } else if i == init_len() {
        BusOp::Command(0x10)
    } else if i < init_len() + 1 + EPD_HEIGHT {
        BusOp::Data(rows[i - init_len() - 1])
    } else {
        refresh_op(i - init_len() - 1 - EPD_HEIGHT)
    }
}

pub open spec fn frame_len() -> int {
    init_len() + 1 + EPD_HEIGHT + refresh_len()
}

/// Everything sent to draw a frame with panel rows `rows`.
pub open spec fn frame_ops(rows: Seq<Seq<u8>>) -> Seq<BusOp> {
    Seq::new(frame_len() as nat, |i: int| frame_op(rows, i))
}

/// The first `count` planned operations were sent after `before`.
pub open spec fn sent_up_to(before: Seq<BusOp>, after: Seq<BusOp>, planned: Seq<BusOp>, count: int) -> bool {
    0 <= count <= planned.len() && after == before + planned.take(count)
}

/// A transfer that stopped early: what was sent after `before` is a non-empty
/// beginning of what was planned.
pub open spec fn stopped_early(before: Seq<BusOp>, after: Seq<BusOp>, planned: Seq<BusOp>) -> bool {
    exists|count: int| 0 < count && #[trigger] sent_up_to(before, after, planned, count)
}

proof fn lemma_advance(before: Seq<BusOp>, middle: Seq<BusOp>, after: Seq<BusOp>, planned: Seq<BusOp>, count: int)
    requires
        sent_up_to(before, middle, planned, count),
        count < planned.len(),
        after == middle.push(planned[count]),
    ensures
        sent_up_to(before, after, planned, count + 1),
{
    assert(planned.take(count + 1) =~= planned.take(count).push(planned[count]));
    assert(after =~= before + planned.take(count + 1));
}

fn send_reset<B: EpdBus>(bus: &mut B, Ghost(before): Ghost<Seq<BusOp>>, Ghost(planned): Ghost<Seq<BusOp>>, Ghost(count): Ghost<int>) -> (result: Result<(), EpdError>)
    requires
        sent_up_to(before, old(bus).operations(), planned, count),
        count < planned.len(),
        planned[count] == BusOp::Reset,
    ensures
        sent_up_to(before, final(bus).operations(), planned, count + 1),
        final(bus).answers() == old(bus).answers().push(result),
{
    let result = bus.reset();
    proof {
        lemma_advance(before, old(bus).operations(), bus.operations(), planned, count);
    }
    result
}

fn send_wait<B: EpdBus>(bus: &mut B, Ghost(before): Ghost<Seq<BusOp>>, Ghost(planned): Ghost<Seq<BusOp>>, Ghost(count): Ghost<int>) -> (result: Result<(), EpdError>)
    requires
        sent_up_to(before, old(bus).operations(), planned, count),
        count < planned.len(),
        planned[count] == BusOp::WaitUntilReady,
    ensures
        sent_up_to(before, final(bus).operations(), planned, count + 1),
        final(bus).answers() == old(bus).answers().push(result),
{
    let result = bus.wait_until_ready();
    proof {
        lemma_advance(before, old(bus).operations(), bus.operations(), planned, count);
    }
    result
}

fn send_delay<B: EpdBus>(bus: &mut B, milliseconds: u32, Ghost(before): Ghost<Seq<BusOp>>, Ghost(planned): Ghost<Seq<BusOp>>, Ghost(count): Ghost<int>)
    requires
        sent_up_to(before, old(bus).operations(), planned, count),
        count < planned.len(),
        planned[count] == BusOp::Delay(milliseconds),
    ensures
        sent_up_to(before, final(bus).operations(), planned, count + 1),
        final(bus).answers() == old(bus).answers().push(Ok(())),
{
    bus.delay_ms(milliseconds);
    proof {
        lemma_advance(before, old(bus).operations(), bus.operations(), planned, count);
    }
}

fn send_command<B: EpdBus>(bus: &mut B, command: u8, Ghost(before): Ghost<Seq<BusOp>>, Ghost(planned): Ghost<Seq<BusOp>>, Ghost(count): Ghost<int>) -> (result: Result<(), EpdError>)
    requires
        sent_up_to(before, old(bus).operations(), planned, count),
        count < planned.len(),
        planned[count] == BusOp::Command(command),
    ensures
        sent_up_to(before, final(bus).operations(), planned, count + 1),
        final(bus).answers() == old(bus).answers().push(result),
{
    let result = bus.command(command);
    proof {
        lemma_advance(before, old(bus).operations(), bus.operations(), planned, count);
    }
    result
}

fn send_data<B: EpdBus>(bus: &mut B, data: &[u8], Ghost(before): Ghost<Seq<BusOp>>, Ghost(planned): Ghost<Seq<BusOp>>, Ghost(count): Ghost<int>) -> (result: Result<(), EpdError>)
    requires
        sent_up_to(before, old(bus).operations(), planned, count),
        count < planned.len(),
        planned[count] == BusOp::Data(data@),
    ensures
        sent_up_to(before, final(bus).operations(), planned, count + 1),
        final(bus).answers() == old(bus).answers().push(result),
{
    let result = bus.data(data);
    proof {
        lemma_advance(before, old(bus).operations(), bus.operations(), planned, count);
    }
    result
}

/// Powers the panel up.
fn init_panel<B: EpdBus>(bus: &mut B, Ghost(before): Ghost<Seq<BusOp>>, Ghost(rows): Ghost<Seq<Seq<u8>>>) -> (result: Result<(), EpdError>)
    requires
        sent_up_to(before, old(bus).operations(), frame_ops(rows), 0),
    ensures
        result is Ok ==> sent_up_to(before, final(bus).operations(), frame_ops(rows), init_len()),
        result is Err ==> stopped_early(before, final(bus).operations(), frame_ops(rows)),
        result is Ok ==> answered_ok(old(bus).answers(), final(bus).answers()),
        result is Err ==> answered_then_failed(old(bus).answers(), final(bus).answers()),
{
    let ghost planned = frame_ops(rows);
    let ghost answers_before = bus.answers();
    send_reset(bus, Ghost(before), Ghost(planned), Ghost(0))?;
    send_wait(bus, Ghost(before), Ghost(planned), Ghost(1))?;
    send_delay(bus, 50, Ghost(before), Ghost(planned), Ghost(2));
    let mut index: usize = 0;
    while index < INIT_STEP_COUNT
        invariant
            index <= INIT_STEP_COUNT,
            planned == frame_ops(rows),
            sent_up_to(before, bus.operations(), planned, 3 + 2 * index),
            answers_before == old(bus).answers(),
            answered_ok(answers_before, bus.answers()),
        decreases INIT_STEP_COUNT - index,
    {
        let step = init_step(index);
        proof {
            assert((3 + 2 * index - 3) / 2 == index && (3 + 2 * index - 3) % 2 == 0);
            assert((4 + 2 * index - 3) / 2 == index && (4 + 2 * index - 3) % 2 == 1);
        }
        send_command(bus, step.0, Ghost(before), Ghost(planned), Ghost(3 + 2 * index))?;
        send_data(bus, step.1.as_slice(), Ghost(before), Ghost(planned), Ghost(4 + 2 * index))?;
        index = index + 1;
    }
    send_command(bus, 0x04, Ghost(before), Ghost(planned), Ghost(3 + 2 * INIT_STEP_COUNT))?;
    send_delay(bus, 100, Ghost(before), Ghost(planned), Ghost(4 + 2 * INIT_STEP_COUNT));
    send_wait(bus, Ghost(before), Ghost(planned), Ghost(5 + 2 * INIT_STEP_COUNT))
}

/// Powers the panel on, refreshes it and powers it off.
fn refresh_and_power_off<B: EpdBus>(bus: &mut B, Ghost(before): Ghost<Seq<BusOp>>, Ghost(rows): Ghost<Seq<Seq<u8>>>) -> (result: Result<(), EpdError>)
    requires
        sent_up_to(before, old(bus).operations(), frame_ops(rows), init_len() + 1 + EPD_HEIGHT),
    ensures
        result is Ok ==> final(bus).operations() == before + frame_ops(rows),
        result is Err ==> exists|count: int|
            init_len() + 1 + EPD_HEIGHT < count && #[trigger] sent_up_to(before, final(bus).operations(), frame_ops(rows), count),
        result is Ok ==> answered_ok(old(bus).answers(), final(bus).answers()),
        result is Err ==> answered_then_failed(old(bus).answers(), final(bus).answers()),
{
    let ghost planned = frame_ops(rows);
    let ghost start = init_len() + 1 + EPD_HEIGHT;
    send_command(bus, 0x04, Ghost(before), Ghost(planned), Ghost(start))?;
    send_delay(bus, 100, Ghost(before), Ghost(planned), Ghost(start + 1));
    send_wait(bus, Ghost(before), Ghost(planned), Ghost(start + 2))?;
    send_command(bus, 0x06, Ghost(before), Ghost(planned), Ghost(start + 3))?;
    let booster = booster_soft_start();
    send_data(bus, booster.as_slice(), Ghost(before), Ghost(planned), Ghost(start + 4))?;
    let zero = vec![0x00u8];
    assert(zero@ =~= seq![0x00u8]);
    send_command(bus, 0x12, Ghost(before), Ghost(planned), Ghost(start + 5))?;
    send_data(bus, zero.as_slice(), Ghost(before), Ghost(planned), Ghost(start + 6))?;
    send_delay(bus, 100, Ghost(before), Ghost(planned), Ghost(start + 7));
    send_wait(bus, Ghost(before), Ghost(planned), Ghost(start + 8))?;
    send_command(bus, 0x02, Ghost(before), Ghost(planned), Ghost(start + 9))?;
    send_data(bus, zero.as_slice(), Ghost(before), Ghost(planned), Ghost(start + 10))?;
    send_delay(bus, 100, Ghost(before), Ghost(planned), Ghost(start + 11));
    let result = send_wait(bus, Ghost(before), Ghost(planned), Ghost(start + 12));
    proof {
        assert(planned.take(frame_len()) =~= planned);
    }
    result
}

/// Draws a frame: powers the panel up, sends the rows `source` hands out from
/// the top of the panel down, refreshes and powers off. It stops at the first
/// failure, having sent the beginning of the frame.
fn run_epd_frame<B: EpdBus, S: EpdRowSource>(bus: &mut B, source: &mut S) -> (result: Result<(), EpdError>)
    ensures
        final(source).panel_rows() == old(source).panel_rows(),
        result is Ok ==> final(bus).operations() == old(bus).operations() + frame_ops(old(source).panel_rows()),
        result is Err ==> stopped_early(old(bus).operations(), final(bus).operations(), frame_ops(old(source).panel_rows())),
        result is Ok ==> answered_ok(old(bus).answers(), final(bus).answers()),
        result is Err && old(source).fills() ==> answered_then_failed(old(bus).answers(), final(bus).answers()),
{
    let ghost before = bus.operations();
    let ghost rows = source.panel_rows();
    let ghost planned = frame_ops(rows);
    proof {
        assert(before =~= before + planned.take(0));
    }
    init_panel(bus, Ghost(before), Ghost(rows))?;
    let mut row = [0u8; EPD_ROW_BYTES];
    send_command(bus, 0x10, Ghost(before), Ghost(planned), Ghost(init_len()))?;
    let mut panel_y: usize = 0;
    while panel_y < EPD_HEIGHT
        invariant
            panel_y <= EPD_HEIGHT,
            rows == source.panel_rows(),
            rows == old(source).panel_rows(),
            before == old(bus).operations(),
            planned == frame_ops(rows),
            sent_up_to(before, bus.operations(), planned, init_len() + 1 + panel_y),
            source.fills() == old(source).fills(),
            answered_ok(old(bus).answers(), bus.answers()),
        decreases EPD_HEIGHT - panel_y,
    {
        let filled = source.fill_panel_row(panel_y, &mut row);
        if filled.is_err() {
            return filled;
        }
        send_data(bus, row.as_slice(), Ghost(before), Ghost(planned), Ghost(init_len() + 1 + panel_y))?;
        panel_y = panel_y + 1;
    }
    refresh_and_power_off(bus, Ghost(before), Ghost(rows))
}

/// Powers the panel up, sends the rows that `source` hands out from the top of
/// the panel down, refreshes and powers it off.
pub fn run_epd_prepacked_frame<B: EpdBus, S: EpdRowSource>(bus: &mut B, source: &mut S) -> (result: Result<(), EpdError>)
    ensures
        final(source).panel_rows() == old(source).panel_rows(),
        result is Ok ==> final(bus).operations() == old(bus).operations() + frame_ops(old(source).panel_rows()),
        result is Err ==> stopped_early(old(bus).operations(), final(bus).operations(), frame_ops(old(source).panel_rows())),
        result is Ok ==> answered_ok(old(bus).answers(), final(bus).answers()),
        result is Err && old(source).fills() ==> answered_then_failed(old(bus).answers(), final(bus).answers()),
{
    run_epd_frame(bus, source)
}

/// The panel rows of the self-test: logical row `y` is drawn upside down on the
/// mounted panel, so panel row `r` shows logical row `479 - r`.
pub open spec fn test_pattern_rows() -> Seq<Seq<u8>> {
    Seq::new(
        EPD_HEIGHT as nat,
        |panel_y: int|
            Seq::new(
                EPD_ROW_BYTES as nat,
                |i: int|
                    spec_pack_epd_pixels(
                        spec_test_bar_for_row(EPD_HEIGHT - 1 - panel_y),
                        spec_test_bar_for_row(EPD_HEIGHT - 1 - panel_y),
                    ),
            ),
    )
}

/// The six colour bars of the self-test, upright on the mounted panel.
pub struct TestPatternRows;

impl EpdRowSource for TestPatternRows {
    open spec fn panel_rows(&self) -> Seq<Seq<u8>> {
        test_pattern_rows()
    }

    open spec fn fills(&self) -> bool {
        true
    }

    fn fill_panel_row(&mut self, panel_y: usize, row: &mut [u8; EPD_ROW_BYTES]) -> (result: Result<(), EpdError>)
        ensures
            result == Ok::<(), EpdError>(()),
            *final(self) == *old(self),
            panel_y >= EPD_HEIGHT ==> *final(row) == *old(row),
    {
        if panel_y < EPD_HEIGHT {
            fill_test_pattern_row(EPD_HEIGHT - 1 - panel_y, row);
            assert(row@ =~= test_pattern_rows()[panel_y as int]);
        }
        Ok(())
    }
}

/// Shows the six colour bars.
pub fn run_epd_hardware_self_test<B: EpdBus>(bus: &mut B) -> (result: Result<(), EpdError>)
    ensures
        result is Ok ==> final(bus).operations() == old(bus).operations() + frame_ops(test_pattern_rows()),
        result is Err ==> stopped_early(old(bus).operations(), final(bus).operations(), frame_ops(test_pattern_rows())),
        result is Ok <==> answered_ok(old(bus).answers(), final(bus).answers()),
        result is Err ==> answered_then_failed(old(bus).answers(), final(bus).answers()),
{
    let mut rows = TestPatternRows;
    run_epd_frame(bus, &mut rows)
}

/// Copies panel row `panel_y` of a packed frame.
pub fn copy_packed_row(frame: &[u8], panel_y: usize, row: &mut [u8; EPD_ROW_BYTES])
    requires
        frame@.len() == EPD_FRAME_BYTES,
        panel_y < EPD_HEIGHT,
    ensures
        forall|i: int|
            0 <= i < EPD_ROW_BYTES ==> #[trigger] final(row)@[i] == frame@[panel_y * EPD_ROW_BYTES + i],
{
    let start = panel_y * EPD_ROW_BYTES;
    let mut i: usize = 0;
    while i < EPD_ROW_BYTES
        invariant
            i <= EPD_ROW_BYTES,
            row@.len() == EPD_ROW_BYTES,
            frame@.len() == EPD_FRAME_BYTES,
            panel_y < EPD_HEIGHT,
            start == panel_y * EPD_ROW_BYTES,
            forall|j: int| 0 <= j < i ==> #[trigger] row@[j] == frame@[start + j],
        decreases EPD_ROW_BYTES - i,
    {
        row[i] = frame[start + i];
        i = i + 1;
    }
}

/// The panel rows of a packed frame, from the top of the panel down.
pub open spec fn packed_frame_rows(frame: Seq<u8>) -> Seq<Seq<u8>> {
    Seq::new(
        EPD_HEIGHT as nat,
        |panel_y: int| frame.subrange(panel_y * EPD_ROW_BYTES, panel_y * EPD_ROW_BYTES + EPD_ROW_BYTES),
    )
}

/// The rows of a packed frame, as a row source.
pub struct PackedFrameRows<'a> {
    frame: &'a [u8],
}

impl<'a> PackedFrameRows<'a> {
    #[verifier::type_invariant]
    closed spec fn whole_frame(self) -> bool {
        self.frame@.len() == EPD_FRAME_BYTES
    }

    pub closed spec fn spec_frame(&self) -> Seq<u8> {
        self.frame@
    }

    /// A row source over a whole packed frame.
    pub fn new(frame: &'a [u8]) -> (rows: Self)
        requires
            frame@.len() == EPD_FRAME_BYTES,
        ensures
            rows.spec_frame() == frame@,
    {
        PackedFrameRows { frame }
    }
}

impl<'a> EpdRowSource for PackedFrameRows<'a> {
    open spec fn panel_rows(&self) -> Seq<Seq<u8>> {
        packed_frame_rows(self.spec_frame())
    }

    open spec fn fills(&self) -> bool {
        true
    }

    fn fill_panel_row(&mut self, panel_y: usize, row: &mut [u8; EPD_ROW_BYTES]) -> (result: Result<(), EpdError>)
        ensures
            result == Ok::<(), EpdError>(()),
            *final(self) == *old(self),
            panel_y >= EPD_HEIGHT ==> *final(row) == *old(row),
    {
        proof {
            use_type_invariant(&*self);
        }
        if panel_y < EPD_HEIGHT {
            copy_packed_row(self.frame, panel_y, row);
            assert(row@ =~= packed_frame_rows(self.frame@)[panel_y as int]);
        }
        Ok(())
    }
}

/// Sends a whole packed frame.
pub fn run_epd_packed_frame<B: EpdBus>(bus: &mut B, frame: &[u8]) -> (result: Result<(), EpdError>)
    requires
        frame@.len() == EPD_FRAME_BYTES,
    ensures
        result is Ok ==> final(bus).operations() == old(bus).operations() + frame_ops(packed_frame_rows(frame@)),
        result is Err ==> stopped_early(old(bus).operations(), final(bus).operations(), frame_ops(packed_frame_rows(frame@))),
        result is Ok <==> answered_ok(old(bus).answers(), final(bus).answers()),
        result is Err ==> answered_then_failed(old(bus).answers(), final(bus).answers()),
{
    let mut rows = PackedFrameRows::new(frame);
    run_epd_frame(bus, &mut rows)
}

} // verus!
