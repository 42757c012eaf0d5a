//! The databus: the address/status/data/command layer between the CPU and
//! its peripherals.
//!
//! The CPU latches a peripheral address with Adr, picks status or data mode,
//! and then reads the bus: the read OR-combines the status (or data) bytes
//! of every peripheral whose address matches.  The screen and the keyboard
//! share one address, the cassette has its own.  Writes and the Com1..Com4
//! side-band commands go to the matching peripherals, transport commands to
//! the cassette, and the periodic bus clock advances the selected
//! peripheral only.

use vstd::prelude::*;

use crate::cassette::{
    spec_cassette_clock, spec_cassette_status, spec_deck_bsp, spec_deck_rbk, spec_deck_scan,
    spec_deck_stop, Cassette, CassetteDeck, CassetteState, DeckId, MovementDirection,
    CASSETTE_ADDR,
};
use crate::instruction::{Instruction, InstructionType};
use crate::keyboard::{spec_keyboard_status, Keyboard, KEYBOARD_ADDR};
use crate::screen::{spec_control_word, spec_put, Screen, ScreenState, SCREEN_ADDR};

verus! {

/// Whether bus reads see the peripherals' status bytes or their data bytes.
#[derive(Debug, PartialEq, Eq, Clone, Copy, Structural)]
pub enum DatabusMode {
    Data,
    Status,
}

/// The mathematical value of the databus: the latched address, the mode,
/// and the three peripherals.
#[verifier::ext_equal]
pub ghost struct DatabusState {
    pub selected_addr: u8,
    pub selected_mode: DatabusMode,
    pub screen: ScreenState,
    pub keyboard: Keyboard,
    pub cassette: CassetteState,
}

impl DatabusState {
    /// A well-formed bus: its stateful peripherals are well formed.
    pub open spec fn wf(self) -> bool {
        &&& self.screen.wf()
        &&& self.cassette.wf()
    }
}

/// The status byte a bus read sees: in status mode, the OR of the status
/// bytes of every peripheral at the selected address, else 0.
pub open spec fn spec_read_status(b: DatabusState) -> u8 {
    if b.selected_mode == DatabusMode::Status {
        (if b.selected_addr == CASSETTE_ADDR {
            spec_cassette_status(b.cassette)
        } else {
            0u8
        }) | (if b.selected_addr == SCREEN_ADDR {
            1u8
        } else {
            0u8
        }) | (if b.selected_addr == KEYBOARD_ADDR {
            spec_keyboard_status(b.keyboard)
        } else {
            0u8
        })
    } else {
        0
    }
}

/// The data byte a bus read sees: in data mode, the OR of the data bytes
/// of every peripheral at the selected address (the cassette's oldest
/// buffered byte, 0 from the screen, the keyboard's latched key), else 0.
pub open spec fn spec_read_data(b: DatabusState) -> u8 {
    if b.selected_mode == DatabusMode::Data {
        (if b.selected_addr == CASSETTE_ADDR {
            if b.cassette.data_buffer.len() > 0 {
                b.cassette.data_buffer.last()
            } else {
                0u8
            }
        } else {
            0u8
        }) | (if b.selected_addr == KEYBOARD_ADDR {
            b.keyboard.key_buf
        } else {
            0u8
        })
    } else {
        0
    }
}

/// What the CPU's Input instruction reads from the bus.
pub open spec fn spec_read_bus(b: DatabusState) -> u8 {
    spec_read_data(b) | spec_read_status(b)
}

/// The bus after a data byte is written: every peripheral at the selected
/// address takes it; only the screen reacts, placing the character at its
/// cursor.
pub open spec fn spec_bus_write(b: DatabusState, data: u8) -> DatabusState {
    if b.selected_addr == SCREEN_ADDR {
        DatabusState {
            screen: ScreenState {
                buffer: spec_put(
                    b.screen.buffer,
                    b.screen.line as int,
                    b.screen.character as int,
                    data as char,
                ),
                ..b.screen
            },
            ..b
        }
    } else {
        b
    }
}

/// The bus after one periodic clock tick: only the selected peripheral
/// advances, and only the cassette has time-dependent state.
pub open spec fn spec_bus_clock(b: DatabusState) -> DatabusState {
    if b.selected_addr == CASSETTE_ADDR {
        DatabusState { cassette: spec_cassette_clock(b.cassette), ..b }
    } else {
        b
    }
}

/// The bus after a strobe pulse: in data mode the selected peripheral
/// consumes its pending byte — the keyboard clears its ready flag, the
/// cassette drops the oldest buffered byte.
pub open spec fn spec_bus_strobe(b: DatabusState) -> DatabusState {
    if b.selected_mode == DatabusMode::Data {
        let b1 = if b.selected_addr == KEYBOARD_ADDR {
            DatabusState {
                keyboard: Keyboard { key_ready: false, ..b.keyboard },
                ..b
            }
        } else {
            b
        };
        if b1.selected_addr == CASSETTE_ADDR {
            DatabusState {
                cassette: CassetteState {
                    data_buffer: if b1.cassette.data_buffer.len() == 0 {
                        b1.cassette.data_buffer
                    } else {
                        b1.cassette.data_buffer.drop_last()
                    },
                    ..b1.cassette
                },
                ..b1
            }
        } else {
            b1
        }
    } else {
        b
    }
}

/// The bus after one of the CPU's peripheral commands, carrying the
/// accumulator byte.  Adr latches the address and returns to status mode;
/// Write stores the byte; Com1..Com3 drive the screen's control word and
/// cursor; the transport commands drive the cassette; Com4, Beep, Click,
/// Wbk and Rewind are accepted and do nothing.
pub open spec fn spec_execute_command(
    b: DatabusState,
    it: InstructionType,
    data: u8,
) -> DatabusState {
    match it {
        InstructionType::Adr => DatabusState {
            selected_addr: data,
            selected_mode: DatabusMode::Status,
            ..b
        },
        InstructionType::Write => spec_bus_write(b, data),
        InstructionType::Com1 => if b.selected_addr == SCREEN_ADDR {
            DatabusState { screen: spec_control_word(b.screen, data), ..b }
        } else {
            b
        },
        InstructionType::Com2 => if b.selected_addr == SCREEN_ADDR {
            DatabusState {
                screen: if data < 80 {
                    ScreenState { character: data as usize, ..b.screen }
                } else {
                    b.screen
                },
                ..b
            }
        } else {
            b
        },
        InstructionType::Com3 => if b.selected_addr == SCREEN_ADDR {
            DatabusState {
                screen: if data < 12 {
                    ScreenState { line: data as usize, ..b.screen }
                } else {
                    b.screen
                },
                ..b
            }
        } else {
            b
        },
        InstructionType::Deck1 => DatabusState {
            cassette: CassetteState {
                selected_deck: crate::cassette::DeckId::Deck1,
                ..b.cassette
            },
            ..b
        },
        InstructionType::Deck2 => DatabusState {
            cassette: CassetteState {
                selected_deck: crate::cassette::DeckId::Deck2,
                ..b.cassette
            },
            ..b
        },
        InstructionType::Rbk => DatabusState {
            cassette: b.cassette.with_sel(spec_deck_rbk(b.cassette.sel())),
            ..b
        },
        InstructionType::Bsp => DatabusState {
            cassette: b.cassette.with_sel(spec_deck_bsp(b.cassette.sel())),
            ..b
        },
        InstructionType::Sf => DatabusState {
            cassette: b.cassette.with_sel(
                spec_deck_scan(b.cassette.sel(), MovementDirection::Forward),
            ),
            ..b
        },
        InstructionType::Sb => DatabusState {
            cassette: b.cassette.with_sel(
                spec_deck_scan(b.cassette.sel(), MovementDirection::Backwards),
            ),
            ..b
        },
        InstructionType::Tstop => DatabusState {
            cassette: CassetteState {
                data_buffer: Seq::empty(),
                ..b.cassette.with_sel(spec_deck_stop(b.cassette.sel()))
            },
            ..b
        },
        _ => b,
    }
}

/// The databus as `Databus::build` makes it: address 0 latched, status
/// mode, a blank screen, an idle keyboard, and two empty tapes with
/// deck 1 selected.
pub open spec fn spec_fresh_bus() -> DatabusState {
    DatabusState {
        selected_addr: 0,
        selected_mode: DatabusMode::Status,
        screen: crate::screen::spec_blank_screen(),
        keyboard: Keyboard {
            key_buf: 0,
            key_ready: false,
            keyboard_pressed: false,
            display_pressed: false,
        },
        cassette: CassetteState {
            deck1: CassetteDeck::spec_empty_deck(),
            deck2: CassetteDeck::spec_empty_deck(),
            selected_deck: DeckId::Deck1,
            data_buffer: Seq::empty(),
        },
    }
}

/// The databus with its three peripherals.
#[derive(Debug)]
pub struct Databus {
    pub selected_addr: u8,
    pub selected_mode: DatabusMode,
    pub screen: Screen,
    pub keyboard: Keyboard,
    pub cassette: Cassette,
}

impl View for Databus {
    type V = DatabusState;

    open spec fn view(&self) -> DatabusState {
        DatabusState {
            selected_addr: self.selected_addr,
            selected_mode: self.selected_mode,
            screen: self.screen@,
            keyboard: self.keyboard,
            cassette: self.cassette@,
        }
    }
}

impl Databus {
    /// A bus with address 0 latched, status mode, and freshly built
    /// peripherals; see `spec_fresh_bus`.
    pub fn build() -> (bus: Databus)
        ensures
            bus@.wf(),
            bus@ == spec_fresh_bus(),
    {
        let bus = Databus {
            selected_addr: 0,
            selected_mode: DatabusMode::Status,
            screen: Screen::new(),
            keyboard: Keyboard::new(),
            cassette: Cassette::new(),
        };
        proof {
            assert(bus@.cassette =~= spec_fresh_bus().cassette);
            assert(bus@ =~~= spec_fresh_bus());
        }
        bus
    }

    /// The status byte a read sees; see `spec_read_status`.
    fn read_status(&self) -> (r: u8)
        requires
            self@.wf(),
        ensures
            r == spec_read_status(self@),
    {
        if matches!(self.selected_mode, DatabusMode::Status) {
            let a = if self.selected_addr == CASSETTE_ADDR {
                self.cassette.get_status()
            } else {
                0
            };
            let b = if self.selected_addr == SCREEN_ADDR {
                1
            } else {
                0
            };
            let c = if self.selected_addr == KEYBOARD_ADDR {
                self.keyboard.get_status()
            } else {
                0
            };
            (a | b) | c
        } else {
            0
        }
    }

    /// The data byte a read sees; see `spec_read_data`.
    fn read_data(&self) -> (r: u8)
        requires
            self@.wf(),
        ensures
            r == spec_read_data(self@),
    {
        if matches!(self.selected_mode, DatabusMode::Data) {
            let a = if self.selected_addr == CASSETTE_ADDR {
                self.cassette.get_data()
            } else {
                0
            };
            let c = if self.selected_addr == KEYBOARD_ADDR {
                self.keyboard.get_data()
            } else {
                0
            };
            a | c
        } else {
            0
        }
    }

    /// What the CPU's Input instruction reads; see `spec_read_bus`.
    pub fn read_bus(&self) -> (r: u8)
        requires
            self@.wf(),
        ensures
            r == spec_read_bus(self@),
    {
        self.read_data() | self.read_status()
    }

    /// Write a data byte to the peripherals at the selected address; see
    /// `spec_bus_write`.
    pub fn write_data(&mut self, data: u8)
        requires
            old(self)@.wf(),
        ensures
            final(self)@ == spec_bus_write(old(self)@, data),
            final(self)@.wf(),
    {
        if self.selected_addr == CASSETTE_ADDR {
            self.cassette.write_data(data);
        }
        if self.selected_addr == SCREEN_ADDR {
            self.screen.write_data(data);
        }
        if self.selected_addr == KEYBOARD_ADDR {
            self.keyboard.write_data(data);
        }
        proof {
            assert(final(self)@ =~~= spec_bus_write(old(self)@, data));
        }
    }

    /// One periodic bus clock tick; see `spec_bus_clock`.
    pub fn clock(&mut self)
        requires
            old(self)@.wf(),
        ensures
            final(self)@ == spec_bus_clock(old(self)@),
            final(self)@.wf(),
    {
        if self.selected_addr == CASSETTE_ADDR {
            self.cassette.clock();
        }
        if self.selected_addr == SCREEN_ADDR {
            self.screen.clock();
        }
        if self.selected_addr == KEYBOARD_ADDR {
            self.keyboard.clock();
        }
    }

    /// A strobe pulse from the CPU; see `spec_bus_strobe`.
    pub fn strobe(&mut self)
        requires
            old(self)@.wf(),
        ensures
            final(self)@ == spec_bus_strobe(old(self)@),
            final(self)@.wf(),
    {
        if matches!(self.selected_mode, DatabusMode::Data) {
            if self.selected_addr == KEYBOARD_ADDR {
                self.keyboard.strobe();
            }
            if self.selected_addr == SCREEN_ADDR {
                self.screen.strobe();
            }
            if self.selected_addr == CASSETTE_ADDR {
                self.cassette.strobe();
            }
        }
    }

    /// Latch a peripheral address and return to status mode.
    pub fn set_addr(&mut self, addr: u8)
        ensures
            (final(self)@ == DatabusState {
                selected_addr: addr,
                selected_mode: DatabusMode::Status,
                ..old(self)@
            }),
    {
        self.selected_addr = addr;
        self.selected_mode = DatabusMode::Status;
    }

    /// Pick what bus reads see: status bytes or data bytes.
    pub fn set_mode(&mut self, mode: DatabusMode)
        ensures
            (final(self)@ == DatabusState { selected_mode: mode, ..old(self)@ }),
    {
        self.selected_mode = mode;
    }

    /// One of the CPU's peripheral commands, carrying the accumulator
    /// byte; see `spec_execute_command`.
    pub fn execute_command(&mut self, inst: Instruction, data: u8)
        requires
            old(self)@.wf(),
        ensures
            final(self)@ == spec_execute_command(old(self)@, inst.instruction_type, data),
            final(self)@.wf(),
    {
        match inst.instruction_type {
            InstructionType::Adr => {
                self.set_addr(data);
            },
            InstructionType::Write => {
                self.write_data(data);
            },
            InstructionType::Com1 => {
                if self.selected_addr == SCREEN_ADDR {
                    self.screen.control_word(data);
                }
            },
            InstructionType::Com2 => {
                if self.selected_addr == SCREEN_ADDR {
                    self.screen.set_horizontal(data);
                }
            },
            InstructionType::Com3 => {
                if self.selected_addr == SCREEN_ADDR {
                    self.screen.set_vertical(data);
                }
            },
            InstructionType::Deck1 => self.cassette.ex_deck1(),
            InstructionType::Deck2 => self.cassette.ex_deck2(),
            InstructionType::Rbk => self.cassette.ex_rbk(),
            InstructionType::Bsp => self.cassette.ex_bsp(),
            InstructionType::Sf => self.cassette.ex_sf(),
            InstructionType::Sb => self.cassette.ex_sb(),
            InstructionType::Tstop => self.cassette.ex_tstop(),
            _ => {},
        }
    }

    /// Refresh the bus outputs; reads change nothing, so neither does
    /// this.
    pub fn update(&mut self)
        requires
            old(self)@.wf(),
        ensures
            final(self)@ == old(self)@,
    {
        let _ = self.read_data();
        let _ = self.read_status();
    }
}

} // verus!
