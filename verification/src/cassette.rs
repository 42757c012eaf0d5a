//! The cassette: two tape decks and a two-byte read buffer.
//!
//! A tape is an ordered sequence of cells, each either a data byte or a gap;
//! a loaded tape begins and ends with a run of gap cells.  The transport
//! advances one cell per so-many bus clocks, depending on speed; each cell
//! the head lands on either latches its byte or raises gap detection, with a
//! one-shot suppression when motion started inside a gap.  The cassette
//! aggregates the selected deck's latched bytes into a bounded buffer,
//! newest first; the CPU reads the oldest and pops it with strobe.
//!
//! TAP images are length-prefixed records: four little-endian length bytes,
//! the payload, and a four-byte trailer; each record becomes its payload's
//! data cells followed by a gap run.  Decks only read: bus writes and the
//! write-block and rewind commands are accepted and do nothing.

use std::collections::VecDeque;

use vstd::prelude::*;

verus! {

/// The databus address the cassette answers to.
pub const CASSETTE_ADDR: u8 = 0o360;

/// Length of the gap run put before the tape and after each record.
pub const GAP_RUN: usize = 10;

/// Cell transitions happen every so many bus clocks at regular speed.
pub const REGULAR_CELL_CLOCKS: usize = 50;

/// Cell transitions happen every so many bus clocks at rewind speed.
pub const REWIND_CELL_CLOCKS: usize = 36;

/// The cassette-level read buffer holds at most this many bytes.
pub const DATA_BUFFER_CAP: usize = 2;

/// One cell of tape: a data byte, or a gap between records.
#[derive(Debug, Clone, Copy, PartialEq, Eq, Structural)]
pub enum CassetteData {
    Data(u8),
    Gap,
}

/// Transport speed of a deck.
#[derive(Debug, Clone, Copy, PartialEq, Eq, Structural)]
pub enum MovementSpeed {
    Stopped,
    Regular,
    Rewind,
}

/// Transport direction of a deck.
#[derive(Debug, Clone, Copy, PartialEq, Eq, Structural)]
pub enum MovementDirection {
    Forward,
    Backwards,
}

/// Which of the two decks.
#[derive(Debug, Clone, Copy, PartialEq, Eq, Structural)]
pub enum DeckId {
    Deck1,
    Deck2,
}

/// The mathematical value of one deck: the immutable cell sequence and the
/// transport state around it.
#[verifier::ext_equal]
pub ghost struct DeckState {
    pub data: Seq<CassetteData>,
    pub speed: MovementSpeed,
    pub direction: MovementDirection,
    pub head_pos: usize,
    pub cycle_count: usize,
    pub data_buf: Option<u8>,
    pub gap_detected: bool,
    pub ignore_gap: bool,
    pub stop_on_gap: bool,
}

impl DeckState {
    /// A well-formed deck: at least one cell (a loaded tape always starts
    /// with a gap run) and the head on the tape.
    pub open spec fn wf(self) -> bool {
        &&& self.data.len() >= 1
        &&& self.head_pos < self.data.len()
    }
}

/// The mathematical value of the cassette: both decks, the selection, and
/// the aggregate read buffer (newest byte first).
#[verifier::ext_equal]
pub ghost struct CassetteState {
    pub deck1: DeckState,
    pub deck2: DeckState,
    pub selected_deck: DeckId,
    pub data_buffer: Seq<u8>,
}

impl CassetteState {
    /// Both decks well formed and the buffer within its bound.
    pub open spec fn wf(self) -> bool {
        &&& self.deck1.wf()
        &&& self.deck2.wf()
        &&& self.data_buffer.len() <= DATA_BUFFER_CAP
    }

    /// The deck currently selected.
    pub open spec fn sel(self) -> DeckState {
        if self.selected_deck == DeckId::Deck1 {
            self.deck1
        } else {
            self.deck2
        }
    }

    /// This cassette with the selected deck replaced.
    pub open spec fn with_sel(self, d: DeckState) -> CassetteState {
        if self.selected_deck == DeckId::Deck1 {
            CassetteState { deck1: d, ..self }
        } else {
            CassetteState { deck2: d, ..self }
        }
    }
}

/// A run of `GAP_RUN` gap cells.
pub open spec fn spec_gap_run() -> Seq<CassetteData> {
    Seq::new(GAP_RUN as nat, |k: int| CassetteData::Gap)
}

/// The 32-bit little-endian number at offset `i`.
pub open spec fn spec_le32(data: Seq<u8>, i: int) -> int {
    data[i] + 256 * data[i + 1] + 65536 * data[i + 2] + 16777216 * data[i + 3]
}

/// The cells of the records of a TAP image from offset `i` on: each
/// record's payload as data cells followed by a gap run.  A truncated
/// length field or payload ends the tape there.
pub open spec fn spec_tap_cells(data: Seq<u8>, i: int) -> Seq<CassetteData>
    decreases data.len() - i,
{
    if i < 0 || i + 4 > data.len() {
        Seq::empty()
    } else {
        let n = spec_le32(data, i);
        if i + 4 + n > data.len() {
            Seq::empty()
        } else {
            let payload = Seq::new(n as nat, |k: int| CassetteData::Data(data[i + 4 + k]));
            let next = if i + 4 + n + 4 <= data.len() {
                i + 4 + n + 4
            } else {
                data.len() as int
            };
            payload + spec_gap_run() + spec_tap_cells(data, next)
        }
    }
}

/// The whole cell sequence of a TAP image: a leading gap run, then the
/// records.
pub open spec fn spec_parse_tap(data: Seq<u8>) -> Seq<CassetteData> {
    spec_gap_run() + spec_tap_cells(data, 0)
}

/// The deck after the head reads the cell under it: a data cell latches
/// its byte and clears the gap flags; a gap cell, unless suppressed by the
/// one-shot `ignore_gap`, clears the latch, raises gap detection, and in
/// read-block mode stops the transport.
pub open spec fn spec_deck_read(d: DeckState) -> DeckState {
    match d.data[d.head_pos as int] {
        CassetteData::Data(b) => DeckState {
            data_buf: Some(b),
            gap_detected: false,
            ignore_gap: false,
            ..d
        },
        CassetteData::Gap => if !d.ignore_gap {
            DeckState {
                data_buf: None,
                gap_detected: true,
                speed: if d.stop_on_gap {
                    MovementSpeed::Stopped
                } else {
                    d.speed
                },
                ..d
            }
        } else {
            d
        },
    }
}

/// The deck after one head movement: one cell in the current direction,
/// then the cell is read; at either end of the tape the transport stops
/// instead.
pub open spec fn spec_update_head(d: DeckState) -> DeckState {
    if d.direction == MovementDirection::Forward {
        if d.head_pos < d.data.len() - 1 {
            spec_deck_read(DeckState { head_pos: (d.head_pos + 1) as usize, ..d })
        } else {
            DeckState { speed: MovementSpeed::Stopped, ..d }
        }
    } else {
        if d.head_pos > 0 {
            spec_deck_read(DeckState { head_pos: (d.head_pos - 1) as usize, ..d })
        } else {
            DeckState { speed: MovementSpeed::Stopped, ..d }
        }
    }
}

/// The deck after one bus clock: the cycle counter advances (holding at
/// its maximum rather than wrapping), and when it reaches the cadence of
/// the current speed it resets and the head moves one cell.
pub open spec fn spec_deck_clock(d: DeckState) -> DeckState {
    let count = if d.cycle_count < usize::MAX {
        (d.cycle_count + 1) as usize
    } else {
        d.cycle_count
    };
    let goal: Option<usize> = match d.speed {
        MovementSpeed::Stopped => None,
        MovementSpeed::Regular => Some(REGULAR_CELL_CLOCKS),
        MovementSpeed::Rewind => Some(REWIND_CELL_CLOCKS),
    };
    match goal {
        None => DeckState { cycle_count: count, ..d },
        Some(g) => if count >= g {
            spec_update_head(DeckState { cycle_count: 0, ..d })
        } else {
            DeckState { cycle_count: count, ..d }
        },
    }
}

/// The cassette after one bus clock: the selected deck advances, and a
/// byte it latched moves to the front of the aggregate buffer, which keeps
/// only its newest `DATA_BUFFER_CAP` bytes.
pub open spec fn spec_cassette_clock(c: CassetteState) -> CassetteState {
    let d = spec_deck_clock(c.sel());
    match d.data_buf {
        Some(b) => {
            let longer = seq![b] + c.data_buffer;
            let buffer = if longer.len() <= DATA_BUFFER_CAP {
                longer
            } else {
                longer.subrange(0, DATA_BUFFER_CAP as int)
            };
            CassetteState {
                data_buffer: buffer,
                ..c.with_sel(DeckState { data_buf: None, ..d })
            }
        },
        None => c.with_sel(d),
    }
}

/// The cassette status byte: bit 0 deck loaded and stopped, bit 1 head at
/// either end of the tape, bit 2 a byte waits in the aggregate buffer,
/// bit 4 gap detected on the selected deck, bit 6 deck loaded.
pub open spec fn spec_cassette_status(c: CassetteState) -> u8 {
    let d = c.sel();
    ((if c.data_buffer.len() > 0 {
        4u8
    } else {
        0u8
    }) + (if d.speed == MovementSpeed::Stopped && d.data.len() > 0 {
        1u8
    } else {
        0u8
    }) + (if d.head_pos == 0 || d.head_pos == d.data.len() - 1 {
        2u8
    } else {
        0u8
    }) + (if d.gap_detected {
        16u8
    } else {
        0u8
    }) + (if d.data.len() > 0 {
        64u8
    } else {
        0u8
    })) as u8
}

/// A deck set in motion for reading a block: forward at regular speed,
/// stopping at the next gap; starting inside a gap arms the one-shot gap
/// suppression.
pub open spec fn spec_deck_rbk(d: DeckState) -> DeckState {
    DeckState {
        direction: MovementDirection::Forward,
        speed: MovementSpeed::Regular,
        ignore_gap: if d.data[d.head_pos as int] == CassetteData::Gap {
            true
        } else {
            d.ignore_gap
        },
        stop_on_gap: true,
        ..d
    }
}

/// A deck set in motion for a scan: regular speed in the given direction,
/// not stopping on gaps; starting inside a gap arms the gap suppression.
pub open spec fn spec_deck_scan(d: DeckState, dir: MovementDirection) -> DeckState {
    DeckState {
        direction: dir,
        speed: MovementSpeed::Regular,
        ignore_gap: if d.data[d.head_pos as int] == CassetteData::Gap {
            true
        } else {
            d.ignore_gap
        },
        stop_on_gap: false,
        ..d
    }
}

/// A deck set in motion backwards for a backspace: the backward variant
/// of the read block, so it stops at the next gap; starting inside a gap
/// arms the gap suppression and clears the gap-detected flag.
pub open spec fn spec_deck_bsp(d: DeckState) -> DeckState {
    DeckState {
        direction: MovementDirection::Backwards,
        speed: MovementSpeed::Regular,
        ignore_gap: if d.data[d.head_pos as int] == CassetteData::Gap {
            true
        } else {
            d.ignore_gap
        },
        gap_detected: if d.data[d.head_pos as int] == CassetteData::Gap {
            false
        } else {
            d.gap_detected
        },
        stop_on_gap: true,
        ..d
    }
}

/// A stopped deck with its read latch cleared.
pub open spec fn spec_deck_stop(d: DeckState) -> DeckState {
    DeckState { speed: MovementSpeed::Stopped, data_buf: None, ..d }
}

/// The byte of a data cell; a gap has none and stands as 0.
pub open spec fn spec_cell_byte(c: CassetteData) -> u8 {
    match c {
        CassetteData::Data(b) => b,
        CassetteData::Gap => 0,
    }
}

/// The first index at or after `i` holding a data cell, or the tape
/// length when none does.
pub open spec fn spec_first_data_from(cells: Seq<CassetteData>, i: int) -> int
    decreases cells.len() - i,
{
    if i < 0 || i >= cells.len() {
        cells.len() as int
    } else if cells[i] is Data {
        i
    } else {
        spec_first_data_from(cells, i + 1)
    }
}

/// The first index at or after `i` holding a gap cell, or the tape
/// length when none does.
pub open spec fn spec_first_gap_from(cells: Seq<CassetteData>, i: int) -> int
    decreases cells.len() - i,
{
    if i < 0 || i >= cells.len() {
        cells.len() as int
    } else if cells[i] is Gap {
        i
    } else {
        spec_first_gap_from(cells, i + 1)
    }
}

/// What `spec_first_data_from` finds: the least data index at or after
/// `i`, with only gaps before it.
pub proof fn lemma_first_data_from(cells: Seq<CassetteData>, i: int)
    requires
        0 <= i <= cells.len(),
    ensures
        i <= spec_first_data_from(cells, i) <= cells.len(),
        spec_first_data_from(cells, i) < cells.len() ==> cells[spec_first_data_from(
            cells,
            i,
        )] is Data,
        forall|j: int| i <= j < spec_first_data_from(cells, i) ==> cells[j] is Gap,
    decreases cells.len() - i,
{
    if i < cells.len() && !(cells[i] is Data) {
        lemma_first_data_from(cells, i + 1);
    }
}

/// What `spec_first_gap_from` finds: the least gap index at or after
/// `i`, with only data before it.
pub proof fn lemma_first_gap_from(cells: Seq<CassetteData>, i: int)
    requires
        0 <= i <= cells.len(),
    ensures
        i <= spec_first_gap_from(cells, i) <= cells.len(),
        spec_first_gap_from(cells, i) < cells.len() ==> cells[spec_first_gap_from(
            cells,
            i,
        )] is Gap,
        forall|j: int| i <= j < spec_first_gap_from(cells, i) ==> cells[j] is Data,
    decreases cells.len() - i,
{
    if i < cells.len() && !(cells[i] is Gap) {
        lemma_first_gap_from(cells, i + 1);
    }
}

/// Where a forward read-block scan from position 0 starts collecting:
/// the head reads only from index 1 on, and with the gap suppression
/// armed it skips gaps up to the first data cell.
pub open spec fn spec_scan_d(cells: Seq<CassetteData>, suppress: bool) -> int {
    if suppress {
        spec_first_data_from(cells, 1)
    } else {
        1
    }
}

/// The bytes a forward read-block scan from position 0 collects.
/// `suppress` tells whether the gap suppression is armed as the scan
/// starts (the head parked on a gap, or a stale armed flag).  The scan
/// reads from index 1 on; suppressed, it skips gaps to the first data
/// run; unsuppressed, an immediate gap stops it at once.  Collection
/// ends at the gap after the run, or at the end of the tape.
pub open spec fn spec_first_block(cells: Seq<CassetteData>, suppress: bool) -> Seq<u8> {
    if cells.len() <= 1 {
        Seq::empty()
    } else if suppress {
        let d = spec_first_data_from(cells, 1);
        if d >= cells.len() {
            Seq::empty()
        } else {
            Seq::new(
                (spec_first_gap_from(cells, d) - d) as nat,
                |k: int| spec_cell_byte(cells[d + k]),
            )
        }
    } else {
        if cells[1] is Gap {
            Seq::empty()
        } else {
            Seq::new(
                (spec_first_gap_from(cells, 1) - 1) as nat,
                |k: int| spec_cell_byte(cells[1 + k]),
            )
        }
    }
}

/// Whether a forward read-block scan from position 0 ends by detecting a
/// gap (rather than running off the end of the tape).
pub open spec fn spec_first_block_ends_at_gap(cells: Seq<CassetteData>, suppress: bool) -> bool {
    if cells.len() <= 1 {
        false
    } else if suppress {
        let d = spec_first_data_from(cells, 1);
        d < cells.len() && spec_first_gap_from(cells, d) < cells.len()
    } else {
        cells[1] is Gap || spec_first_gap_from(cells, 1) < cells.len()
    }
}

/// The invariant of the forward read-block scan that collects the first
/// block, one phase per disjunct: the head still parked at 0; skipping
/// the leading gaps under suppression; inside the data run with every
/// byte so far collected; stopped at the closing gap with the whole
/// block collected; or run off the tape's end with the whole block
/// collected.
pub open spec fn spec_scan_phase(
    deck: DeckState,
    collected: Seq<u8>,
    cells: Seq<CassetteData>,
    suppress: bool,
) -> bool {
    let len = cells.len() as int;
    let d = spec_scan_d(cells, suppress);
    ||| (deck.head_pos == 0 && deck.speed is Regular && !deck.gap_detected && deck.ignore_gap
        == suppress && collected.len() == 0)
    ||| (suppress && deck.speed is Regular && !deck.gap_detected && deck.ignore_gap && 1
        <= deck.head_pos < d && collected.len() == 0)
    ||| (d < len && deck.speed is Regular && !deck.gap_detected && !deck.ignore_gap && d
        <= deck.head_pos < spec_first_gap_from(cells, d) && collected == Seq::new(
        (deck.head_pos + 1 - d) as nat,
        |k: int| spec_cell_byte(cells[d + k]),
    ))
    ||| (deck.speed is Stopped && deck.gap_detected && collected == spec_first_block(
        cells,
        suppress,
    ) && spec_first_block_ends_at_gap(cells, suppress))
    ||| (deck.speed is Stopped && !deck.gap_detected && collected == spec_first_block(
        cells,
        suppress,
    ) && !spec_first_block_ends_at_gap(cells, suppress))
}

/// One tape deck.
#[derive(Debug, Clone)]
pub struct CassetteDeck {
    pub data: Vec<CassetteData>,
    pub speed: MovementSpeed,
    pub direction: MovementDirection,
    pub head_pos: usize,
    pub cycle_count: usize,
    pub data_buf: Option<u8>,
    pub gap_detected: bool,
    pub ignore_gap: bool,
    pub stop_on_gap: bool,
}

impl View for CassetteDeck {
    type V = DeckState;

    open spec fn view(&self) -> DeckState {
        DeckState {
            data: self.data@,
            speed: self.speed,
            direction: self.direction,
            head_pos: self.head_pos,
            cycle_count: self.cycle_count,
            data_buf: self.data_buf,
            gap_detected: self.gap_detected,
            ignore_gap: self.ignore_gap,
            stop_on_gap: self.stop_on_gap,
        }
    }
}

/// Push one run of gap cells.
fn push_gap_run(cells: &mut Vec<CassetteData>)
    ensures
        final(cells)@ == old(cells)@ + spec_gap_run(),
{
    let mut k: usize = 0;
    while k < GAP_RUN
        invariant
            k <= GAP_RUN,
            cells@ == old(cells)@ + spec_gap_run().subrange(0, k as int),
        decreases GAP_RUN - k,
    {
        cells.push(CassetteData::Gap);
        k = k + 1;
        proof {
            assert(cells@ =~= old(cells)@ + spec_gap_run().subrange(0, k as int));
        }
    }
    proof {
        assert(spec_gap_run().subrange(0, GAP_RUN as int) =~= spec_gap_run());
        assert(cells@ =~= old(cells)@ + spec_gap_run());
    }
}

/// The cell sequence of a TAP image; see `spec_parse_tap`.
fn parse_tap(data: &Vec<u8>) -> (cells: Vec<CassetteData>)
    ensures
        cells@ == spec_parse_tap(data@),
        cells@.len() >= GAP_RUN,
        cells@.subrange(0, GAP_RUN as int) == spec_gap_run(),
{
    let mut cells: Vec<CassetteData> = Vec::new();
    push_gap_run(&mut cells);
    let mut i: usize = 0;
    while data.len() >= 4 && i <= data.len() - 4
        invariant
            i <= data@.len(),
            cells@.len() >= GAP_RUN,
            cells@.subrange(0, GAP_RUN as int) == spec_gap_run(),
            spec_parse_tap(data@) == cells@ + spec_tap_cells(data@, i as int),
        ensures
            cells@.len() >= GAP_RUN,
            cells@.subrange(0, GAP_RUN as int) == spec_gap_run(),
            spec_parse_tap(data@) == cells@,
        decreases data@.len() - i,
    {
        proof {
            if data@.len() < 4 {
                assert(spec_tap_cells(data@, i as int) =~= Seq::empty());
            }
        }
        let n32 = (data[i] as u32) + 256 * (data[i + 1] as u32) + 65536 * (data[i + 2] as u32)
            + 16777216 * (data[i + 3] as u32);
        let n = n32 as usize;
        proof {
            assert(n == spec_le32(data@, i as int));
        }
        if n > data.len() - (i + 4) {
            proof {
                assert(spec_tap_cells(data@, i as int) =~= Seq::empty());
                assert(spec_parse_tap(data@) =~= cells@);
            }
            break ;
        }
        assert(i + 4 + n <= data@.len());
        let base = i + 4;
        let ghost before_record = cells@;
        let mut k: usize = 0;
        while k < n
            invariant
                base == i + 4,
                base + n <= data@.len(),
                data@.len() <= usize::MAX,
                k <= n,
                cells@ == before_record + Seq::new(
                    k as nat,
                    |j: int| CassetteData::Data(data@[base + j]),
                ),
            decreases n - k,
        {
            cells.push(CassetteData::Data(data[base + k]));
            k = k + 1;
            proof {
                assert(cells@ =~= before_record + Seq::new(
                    k as nat,
                    |j: int| CassetteData::Data(data@[base + j]),
                ));
            }
        }
        push_gap_run(&mut cells);
        let after_payload = i + 4 + n;
        let next = if data.len() - after_payload >= 4 {
            after_payload + 4
        } else {
            data.len()
        };
        proof {
            let payload = Seq::new(n as nat, |j: int| CassetteData::Data(data@[i + 4 + j]));
            assert(spec_tap_cells(data@, i as int) == payload + spec_gap_run() + spec_tap_cells(
                data@,
                next as int,
            ));
            assert(cells@ =~= before_record + payload + spec_gap_run());
            assert(spec_parse_tap(data@) =~= cells@ + spec_tap_cells(data@, next as int));
        }
        i = next;
    }
    cells
}

impl CassetteDeck {
    /// A deck loaded with the cells of the given TAP image, stopped, head
    /// at the start of the leading gap run.
    pub fn new(tap_file: Vec<u8>) -> (deck: CassetteDeck)
        ensures
            (deck@ == DeckState {
                data: spec_parse_tap(tap_file@),
                speed: MovementSpeed::Stopped,
                direction: MovementDirection::Forward,
                head_pos: 0,
                cycle_count: 0,
                data_buf: None,
                gap_detected: false,
                ignore_gap: false,
                stop_on_gap: false,
            }),
            deck@.wf(),
    {
        let data = parse_tap(&tap_file);
        proof {
            assert(data@.len() >= GAP_RUN);
        }
        CassetteDeck {
            data,
            speed: MovementSpeed::Stopped,
            direction: MovementDirection::Forward,
            head_pos: 0,
            cycle_count: 0,
            data_buf: None,
            gap_detected: false,
            ignore_gap: false,
            stop_on_gap: false,
        }
    }

    /// Read the cell under the head; see `spec_deck_read`.
    fn read_data(&mut self)
        requires
            old(self)@.wf(),
        ensures
            final(self)@ == spec_deck_read(old(self)@),
            final(self)@.wf(),
    {
        match self.data[self.head_pos] {
            CassetteData::Data(data) => {
                self.data_buf = Some(data);
                self.gap_detected = false;
                self.ignore_gap = false;
            },
            CassetteData::Gap => {
                if !self.ignore_gap {
                    self.data_buf = None;
                    self.gap_detected = true;
                    if self.stop_on_gap {
                        self.speed = MovementSpeed::Stopped;
                    }
                }
            },
        }
    }

    /// Move the head one cell and read it; at either end of the tape the
    /// transport stops instead.  See `spec_update_head`.
    pub fn update_head(&mut self)
        requires
            old(self)@.wf(),
        ensures
            final(self)@ == spec_update_head(old(self)@),
            final(self)@.wf(),
    {
        match self.direction {
            MovementDirection::Forward => {
                if self.head_pos < self.data.len() - 1 {
                    self.head_pos = self.head_pos + 1;
                    self.read_data();
                } else {
                    self.speed = MovementSpeed::Stopped;
                }
            },
            MovementDirection::Backwards => {
                if self.head_pos > 0 {
                    self.head_pos = self.head_pos - 1;
                    self.read_data();
                } else {
                    self.speed = MovementSpeed::Stopped;
                }
            },
        }
    }

    /// One bus clock of the deck; see `spec_deck_clock`.
    pub fn clock(&mut self)
        requires
            old(self)@.wf(),
        ensures
            final(self)@ == spec_deck_clock(old(self)@),
            final(self)@.wf(),
    {
        if self.cycle_count < usize::MAX {
            self.cycle_count = self.cycle_count + 1;
        }
        let goal: Option<usize> = match self.speed {
            MovementSpeed::Stopped => None,
            MovementSpeed::Regular => Some(REGULAR_CELL_CLOCKS),
            MovementSpeed::Rewind => Some(REWIND_CELL_CLOCKS),
        };
        if let Some(goal) = goal {
            if self.cycle_count >= goal {
                self.cycle_count = 0;
                self.update_head();
            }
        }
    }
}

/// The two tape decks with the aggregate read buffer.
#[derive(Debug, Clone)]
pub struct Cassette {
    pub deck1: CassetteDeck,
    pub deck2: CassetteDeck,
    pub selected_deck: DeckId,
    pub data_buffer: VecDeque<u8>,
}

impl View for Cassette {
    type V = CassetteState;

    open spec fn view(&self) -> CassetteState {
        CassetteState {
            deck1: self.deck1@,
            deck2: self.deck2@,
            selected_deck: self.selected_deck,
            data_buffer: self.data_buffer@,
        }
    }
}

impl Cassette {
    /// A cassette with two empty tapes (just their leading gap run), deck 1
    /// selected, and an empty read buffer.
    pub fn new() -> (c: Cassette)
        ensures
            c@.wf(),
            c@.deck1 == CassetteDeck::spec_empty_deck(),
            c@.deck2 == CassetteDeck::spec_empty_deck(),
            c@.selected_deck == DeckId::Deck1,
            c@.data_buffer == Seq::<u8>::empty(),
    {
        let c = Cassette {
            deck1: CassetteDeck::new(Vec::new()),
            deck2: CassetteDeck::new(Vec::new()),
            selected_deck: DeckId::Deck1,
            data_buffer: VecDeque::new(),
        };
        proof {
            assert(spec_tap_cells(Seq::<u8>::empty(), 0) =~= Seq::<CassetteData>::empty());
            assert(spec_parse_tap(Seq::<u8>::empty()) =~= spec_gap_run());
            assert(c@.deck1 =~= CassetteDeck::spec_empty_deck());
            assert(c@.deck2 =~= CassetteDeck::spec_empty_deck());
        }
        c
    }

    /// One bus clock of the cassette; see `spec_cassette_clock`.
    pub fn clock(&mut self)
        requires
            old(self)@.wf(),
        ensures
            final(self)@ == spec_cassette_clock(old(self)@),
            final(self)@.wf(),
    {
        let taken: Option<u8>;
        match self.selected_deck {
            DeckId::Deck1 => {
                self.deck1.clock();
                taken = self.deck1.data_buf;
                if taken.is_some() {
                    self.deck1.data_buf = None;
                }
            },
            DeckId::Deck2 => {
                self.deck2.clock();
                taken = self.deck2.data_buf;
                if taken.is_some() {
                    self.deck2.data_buf = None;
                }
            },
        }
        if let Some(read_data) = taken {
            self.data_buffer.push_front(read_data);
            self.data_buffer.truncate(DATA_BUFFER_CAP);
            proof {
                assert(final(self)@ =~= spec_cassette_clock(old(self)@));
            }
        } else {
            proof {
                assert(final(self)@ =~= spec_cassette_clock(old(self)@));
            }
        }
    }

    /// A mutable reference to the selected deck.
    pub fn get_selected_deck(&mut self) -> (deck: &mut CassetteDeck)
        ensures
            old(self)@.selected_deck == DeckId::Deck1 ==> deck@ == old(self)@.deck1,
            old(self)@.selected_deck == DeckId::Deck2 ==> deck@ == old(self)@.deck2,
            (final(self)@ == old(self)@.with_sel(final(deck)@)),
    {
        match self.selected_deck {
            DeckId::Deck1 => &mut self.deck1,
            DeckId::Deck2 => &mut self.deck2,
        }
    }

    /// The cassette status byte; see `spec_cassette_status`.
    pub fn get_status(&self) -> (r: u8)
        requires
            self@.wf(),
        ensures
            r == spec_cassette_status(self@),
    {
        let mut status: u8 = 0;
        if self.data_buffer.len() > 0 {
            status = status + 4;
        }
        let deck = match self.selected_deck {
            DeckId::Deck1 => &self.deck1,
            DeckId::Deck2 => &self.deck2,
        };
        if matches!(deck.speed, MovementSpeed::Stopped) && deck.data.len() > 0 {
            status = status + 1;
        }
        if deck.head_pos == 0 || deck.head_pos == deck.data.len() - 1 {
            status = status + 2;
        }
        if deck.gap_detected {
            status = status + 16;
        }
        if deck.data.len() > 0 {
            status = status + 64;
        }
        status
    }

    /// The CPU consumed a byte: drop the oldest buffered byte.
    pub fn strobe(&mut self)
        requires
            old(self)@.wf(),
        ensures
            (final(self)@ == CassetteState {
                data_buffer: if old(self)@.data_buffer.len() == 0 {
                    old(self)@.data_buffer
                } else {
                    old(self)@.data_buffer.drop_last()
                },
                ..old(self)@
            }),
            final(self)@.wf(),
    {
        let _ = self.data_buffer.pop_back();
        proof {
            if old(self)@.data_buffer.len() > 0 {
                assert(final(self)@.data_buffer =~= old(self)@.data_buffer.drop_last());
            }
        }
    }

    /// Stop the selected deck, clearing its latch and the whole aggregate
    /// buffer.
    pub fn ex_tstop(&mut self)
        requires
            old(self)@.wf(),
        ensures
            (final(self)@ == CassetteState {
                data_buffer: Seq::empty(),
                ..old(self)@.with_sel(spec_deck_stop(old(self)@.sel()))
            }),
            final(self)@.wf(),
    {
        match self.selected_deck {
            DeckId::Deck1 => {
                self.deck1.speed = MovementSpeed::Stopped;
                self.deck1.data_buf = None;
            },
            DeckId::Deck2 => {
                self.deck2.speed = MovementSpeed::Stopped;
                self.deck2.data_buf = None;
            },
        }
        self.data_buffer.clear();
    }

    /// Select deck 1.
    pub fn ex_deck1(&mut self)
        ensures
            (final(self)@ == CassetteState { selected_deck: DeckId::Deck1, ..old(self)@ }),
    {
        self.selected_deck = DeckId::Deck1;
    }

    /// Select deck 2.
    pub fn ex_deck2(&mut self)
        ensures
            (final(self)@ == CassetteState { selected_deck: DeckId::Deck2, ..old(self)@ }),
    {
        self.selected_deck = DeckId::Deck2;
    }

    /// Read block: start the selected deck forward, stopping at the next
    /// gap; see `spec_deck_rbk`.
    pub fn ex_rbk(&mut self)
        requires
            old(self)@.wf(),
        ensures
            final(self)@ == old(self)@.with_sel(spec_deck_rbk(old(self)@.sel())),
            final(self)@.wf(),
    {
        match self.selected_deck {
            DeckId::Deck1 => deck_rbk(&mut self.deck1),
            DeckId::Deck2 => deck_rbk(&mut self.deck2),
        }
    }

    /// Backspace: start the selected deck backwards; see `spec_deck_bsp`.
    pub fn ex_bsp(&mut self)
        requires
            old(self)@.wf(),
        ensures
            final(self)@ == old(self)@.with_sel(spec_deck_bsp(old(self)@.sel())),
            final(self)@.wf(),
    {
        match self.selected_deck {
            DeckId::Deck1 => deck_bsp(&mut self.deck1),
            DeckId::Deck2 => deck_bsp(&mut self.deck2),
        }
    }

    /// Scan forward: start the selected deck forward without stopping on
    /// gaps; see `spec_deck_scan`.
    pub fn ex_sf(&mut self)
        requires
            old(self)@.wf(),
        ensures
            (final(self)@ == old(self)@.with_sel(
                spec_deck_scan(old(self)@.sel(), MovementDirection::Forward),
            )),
            final(self)@.wf(),
    {
        match self.selected_deck {
            DeckId::Deck1 => deck_scan(&mut self.deck1, MovementDirection::Forward),
            DeckId::Deck2 => deck_scan(&mut self.deck2, MovementDirection::Forward),
        }
    }

    /// Scan backward: start the selected deck backwards without stopping
    /// on gaps; see `spec_deck_scan`.
    pub fn ex_sb(&mut self)
        requires
            old(self)@.wf(),
        ensures
            (final(self)@ == old(self)@.with_sel(
                spec_deck_scan(old(self)@.sel(), MovementDirection::Backwards),
            )),
            final(self)@.wf(),
    {
        match self.selected_deck {
            DeckId::Deck1 => deck_scan(&mut self.deck1, MovementDirection::Backwards),
            DeckId::Deck2 => deck_scan(&mut self.deck2, MovementDirection::Backwards),
        }
    }

    /// The oldest byte in the aggregate buffer, or 0 when it is empty; the
    /// buffer is not changed.
    pub fn get_data(&self) -> (r: u8)
        ensures
            r == (if self@.data_buffer.len() > 0 {
                self@.data_buffer.last()
            } else {
                0u8
            }),
    {
        let len = self.data_buffer.len();
        if len > 0 {
            self.data_buffer[len - 1]
        } else {
            0
        }
    }

    /// The cassette ignores bus writes; decks are read-only.
    pub fn write_data(&mut self, data: u8)
        ensures
            final(self)@ == old(self)@,
    {
    }

    /// Load a TAP image into the given deck; the other deck and the buffer
    /// keep their state.
    pub fn load(&mut self, deck: DeckId, tap_file: Vec<u8>)
        requires
            old(self)@.wf(),
        ensures
            deck == DeckId::Deck1 ==> (final(self)@ == CassetteState {
                deck1: final(self)@.deck1,
                ..old(self)@
            }) && final(self)@.deck1 == CassetteDeck::spec_loaded_deck(tap_file@),
            deck == DeckId::Deck2 ==> (final(self)@ == CassetteState {
                deck2: final(self)@.deck2,
                ..old(self)@
            }) && final(self)@.deck2 == CassetteDeck::spec_loaded_deck(tap_file@),
            final(self)@.wf(),
    {
        match deck {
            DeckId::Deck1 => self.deck1 = CassetteDeck::new(tap_file),
            DeckId::Deck2 => self.deck2 = CassetteDeck::new(tap_file),
        }
    }

    /// Read the first block of deck 1 from the start of its tape: select
    /// deck 1, stop it, park the head at position 0, read block, and
    /// clock the transport until the closing gap is detected, collecting
    /// every byte oldest first.  The result is the payload of the tape's
    /// first record: the data run that follows the leading gaps (see
    /// `spec_first_block`).  A stale gap-detected flag on deck 1 makes
    /// the scan end before it moves, with nothing collected.
    pub fn get_first_sector(&mut self) -> (data_out: Vec<u8>)
        requires
            old(self)@.wf(),
        ensures
            final(self)@.wf(),
            final(self)@.selected_deck == DeckId::Deck1,
            final(self)@.data_buffer == Seq::<u8>::empty(),
            final(self)@.deck2 == old(self)@.deck2,
            final(self)@.deck1.data == old(self)@.deck1.data,
            old(self)@.deck1.gap_detected ==> (final(self)@ == CassetteState {
                deck1: spec_deck_rbk(
                    DeckState { head_pos: 0, ..spec_deck_stop(old(self)@.deck1) },
                ),
                selected_deck: DeckId::Deck1,
                data_buffer: Seq::empty(),
                ..old(self)@
            }) && data_out@ == Seq::<u8>::empty(),
            !old(self)@.deck1.gap_detected ==> ({
                let cells = old(self)@.deck1.data;
                let suppress = cells[0] is Gap || old(self)@.deck1.ignore_gap;
                &&& data_out@ == spec_first_block(cells, suppress)
                &&& final(self)@.deck1.speed == MovementSpeed::Stopped
                &&& final(self)@.deck1.gap_detected == spec_first_block_ends_at_gap(
                    cells,
                    suppress,
                )
                &&& final(self)@.deck1.direction == MovementDirection::Forward
                &&& final(self)@.deck1.stop_on_gap
                &&& final(self)@.deck1.data_buf is None
            }),
    {
        let mut data_out: Vec<u8> = Vec::new();
        self.ex_deck1();
        self.ex_tstop();
        self.deck1.head_pos = 0;
        self.ex_rbk();
        let ghost cells = old(self)@.deck1.data;
        let ghost suppress = cells[0] is Gap || old(self)@.deck1.ignore_gap;
        let ghost state0 = self@;
        let tape_len: usize = self.deck1.data.len();
        proof {
            assert(cells.len() == tape_len);
            assert(data_out@ =~= Seq::<u8>::empty());
        }
        while !self.deck1.gap_detected && matches!(self.deck1.speed, MovementSpeed::Regular)
            invariant
                self@.wf(),
                old(self)@.wf(),
                self@.selected_deck == DeckId::Deck1,
                cells == old(self)@.deck1.data,
                suppress == (cells[0] is Gap || old(self)@.deck1.ignore_gap),
                (state0 == CassetteState {
                    deck1: spec_deck_rbk(
                        DeckState { head_pos: 0, ..spec_deck_stop(old(self)@.deck1) },
                    ),
                    selected_deck: DeckId::Deck1,
                    data_buffer: Seq::empty(),
                    ..old(self)@
                }),
                self@.deck1.data == cells,
                cells.len() <= usize::MAX,
                self@.deck1.direction == MovementDirection::Forward,
                self@.deck1.stop_on_gap,
                self@.deck1.data_buf is None,
                self@.data_buffer == Seq::<u8>::empty(),
                self@.deck2 == old(self)@.deck2,
                old(self)@.deck1.gap_detected ==> self@ == state0 && data_out@ == Seq::<
                    u8,
                >::empty(),
                !old(self)@.deck1.gap_detected ==> spec_scan_phase(
                    self@.deck1,
                    data_out@,
                    cells,
                    suppress,
                ),
            decreases (if self@.deck1.speed is Regular {
                1int
            } else {
                0int
            }), cells.len() - self@.deck1.head_pos, (if self@.deck1.cycle_count
                >= REGULAR_CELL_CLOCKS {
                0int
            } else {
                REGULAR_CELL_CLOCKS - self@.deck1.cycle_count
            }),
        {
            let ghost cas0 = self@;
            let ghost before = self@.deck1;
            let ghost collected_before = data_out@;
            self.clock();
            let ghost cas1 = self@;
            if self.data_buffer.len() > 0 {
                data_out.push(self.get_data());
                self.strobe();
            }
            proof {
                let len = cells.len() as int;
                let d = spec_scan_d(cells, suppress);
                lemma_first_data_from(cells, 1);
                if 1 <= d && d < len {
                    lemma_first_gap_from(cells, d);
                }
                let count = if before.cycle_count < usize::MAX {
                    (before.cycle_count + 1) as usize
                } else {
                    before.cycle_count
                };
                if count >= REGULAR_CELL_CLOCKS {
                    if before.head_pos < len - 1 {
                        let h = before.head_pos + 1;
                        match cells[h] {
                            CassetteData::Data(b) => {
                                // Entered or continued the data run; the
                                // byte was harvested into the result.
                                assert(h == d || (d <= before.head_pos < spec_first_gap_from(
                                    cells,
                                    d,
                                )));
                                assert(d <= h < spec_first_gap_from(cells, d));
                                assert(collected_before =~= Seq::new(
                                    (h - d) as nat,
                                    |k: int| spec_cell_byte(cells[d + k]),
                                ));
                                assert(cas1 == spec_cassette_clock(cas0));
                                assert(spec_deck_clock(cas0.sel()).data_buf == Some(b));
                                assert(cas1.data_buffer =~= seq![b]);
                                assert(cas1.data_buffer.last() == b);
                                assert(data_out@ == collected_before.push(b));
                                assert(data_out@ =~= Seq::new(
                                    (h + 1 - d) as nat,
                                    |k: int| spec_cell_byte(cells[d + k]),
                                ));
                            },
                            CassetteData::Gap => {
                                if before.ignore_gap {
                                    // Still skipping the leading gaps.
                                    assert(h < d);
                                } else if before.head_pos == 0 && !suppress {
                                    // An immediate gap: nothing collected.
                                    assert(data_out@ =~= spec_first_block(cells, suppress));
                                } else {
                                    // The closing gap of the data run.
                                    assert(spec_first_gap_from(cells, d) == h);
                                    assert(data_out@ =~= spec_first_block(cells, suppress));
                                }
                            },
                        }
                    } else {
                        // The head reached the end of the tape.
                        if before.head_pos == 0 {
                            assert(len == 1);
                            assert(data_out@ =~= spec_first_block(cells, suppress));
                        } else if before.head_pos < d {
                            assert(d == len);
                            assert(data_out@ =~= spec_first_block(cells, suppress));
                        } else {
                            assert(spec_first_gap_from(cells, d) == len);
                            assert(data_out@ =~= spec_first_block(cells, suppress));
                        }
                    }
                }
            }
        }
        data_out
    }
}

/// See `spec_deck_rbk`.
fn deck_rbk(deck: &mut CassetteDeck)
    requires
        old(deck)@.wf(),
    ensures
        final(deck)@ == spec_deck_rbk(old(deck)@),
        final(deck)@.wf(),
{
    deck.direction = MovementDirection::Forward;
    deck.speed = MovementSpeed::Regular;
    if matches!(deck.data[deck.head_pos], CassetteData::Gap) {
        deck.ignore_gap = true;
    }
    deck.stop_on_gap = true;
}

/// See `spec_deck_bsp`.
fn deck_bsp(deck: &mut CassetteDeck)
    requires
        old(deck)@.wf(),
    ensures
        final(deck)@ == spec_deck_bsp(old(deck)@),
        final(deck)@.wf(),
{
    deck.direction = MovementDirection::Backwards;
    deck.speed = MovementSpeed::Regular;
    if matches!(deck.data[deck.head_pos], CassetteData::Gap) {
        deck.ignore_gap = true;
        deck.gap_detected = false;
    }
    deck.stop_on_gap = true;
}

/// See `spec_deck_scan`.
fn deck_scan(deck: &mut CassetteDeck, dir: MovementDirection)
    requires
        old(deck)@.wf(),
    ensures
        final(deck)@ == spec_deck_scan(old(deck)@, dir),
        final(deck)@.wf(),
{
    deck.direction = dir;
    deck.speed = MovementSpeed::Regular;
    if matches!(deck.data[deck.head_pos], CassetteData::Gap) {
        deck.ignore_gap = true;
    }
    deck.stop_on_gap = false;
}

impl CassetteDeck {
    /// The state of a deck holding an empty tape: just the leading gap
    /// run.
    pub open spec fn spec_empty_deck() -> DeckState {
        CassetteDeck::spec_loaded_deck(Seq::empty())
    }

    /// The state of a freshly loaded deck.
    pub open spec fn spec_loaded_deck(tap: Seq<u8>) -> DeckState {
        DeckState {
            data: spec_parse_tap(tap),
            speed: MovementSpeed::Stopped,
            direction: MovementDirection::Forward,
            head_pos: 0,
            cycle_count: 0,
            data_buf: None,
            gap_detected: false,
            ignore_gap: false,
            stop_on_gap: false,
        }
    }
}

} // verus!
