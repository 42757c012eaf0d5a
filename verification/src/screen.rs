//! The character screen: a 12 x 80 grid of characters with a cursor.
//! Writes place a character at the cursor without moving it; the cursor only
//! moves through the explicit horizontal and vertical positioning commands,
//! and the control word can erase to end of line, erase to end of frame, or
//! roll the whole page up one line.

use vstd::prelude::*;

use crate::numtext::push_char;

verus! {

/// The databus address the screen answers to.
pub const SCREEN_ADDR: u8 = 0o341;

/// Number of character lines on the screen.
pub const SCREEN_LINES: usize = 12;

/// Number of character columns on the screen.
pub const SCREEN_COLS: usize = 80;

/// The cursor: a line and a column, always within the screen bounds.
#[derive(Debug)]
pub struct Cursor {
    pub line: usize,
    pub character: usize,
}

/// The mathematical value of a screen: the character grid, the cursor
/// position and the cursor-enable flag.
#[verifier::ext_equal]
pub ghost struct ScreenState {
    pub buffer: Seq<Seq<char>>,
    pub line: usize,
    pub character: usize,
    pub cursor_enabled: bool,
}

impl ScreenState {
    /// A well-formed screen: 12 lines of 80 characters, cursor in bounds.
    pub open spec fn wf(self) -> bool {
        &&& self.buffer.len() == SCREEN_LINES
        &&& forall|l: int| 0 <= l < SCREEN_LINES ==> self.buffer[l].len() == SCREEN_COLS
        &&& self.line < SCREEN_LINES
        &&& self.character < SCREEN_COLS
    }
}

/// The character screen.
#[derive(Debug)]
pub struct Screen {
    pub buffer: Vec<Vec<char>>,
    pub cursor: Cursor,
    pub cursor_enabled: bool,
}

impl View for Screen {
    type V = ScreenState;

    open spec fn view(&self) -> ScreenState {
        ScreenState {
            buffer: Seq::new(self.buffer@.len(), |l: int| self.buffer@[l]@),
            line: self.cursor.line,
            character: self.cursor.character,
            cursor_enabled: self.cursor_enabled,
        }
    }
}

/// A row of `SCREEN_COLS` spaces.
pub open spec fn spec_blank_row() -> Seq<char> {
    Seq::new(SCREEN_COLS as nat, |c: int| ' ')
}

/// A screen filled with spaces.
pub open spec fn spec_blank_screen() -> ScreenState {
    ScreenState {
        buffer: Seq::new(SCREEN_LINES as nat, |l: int| spec_blank_row()),
        line: 0,
        character: 0,
        cursor_enabled: false,
    }
}

/// The text of the first `upto` screen lines, each line closed with a line
/// terminator.
pub open spec fn spec_screen_text(s: ScreenState, upto: int) -> Seq<char>
    decreases upto,
{
    if upto <= 0 {
        Seq::empty()
    } else {
        spec_screen_text(s, upto - 1) + s.buffer[upto - 1] + seq!['\n']
    }
}

/// The buffer with the cell at `(line, col)` replaced.
pub open spec fn spec_put(buffer: Seq<Seq<char>>, line: int, col: int, ch: char) -> Seq<
    Seq<char>,
> {
    buffer.update(line, buffer[line].update(col, ch))
}

/// Erasure from the cursor to the end of the cursor line.
pub open spec fn spec_erase_line(s: ScreenState) -> ScreenState {
    ScreenState {
        buffer: s.buffer.update(
            s.line as int,
            Seq::new(
                s.buffer[s.line as int].len(),
                |c: int|
                    if c >= s.character {
                        ' '
                    } else {
                        s.buffer[s.line as int][c]
                    },
            ),
        ),
        ..s
    }
}

/// Erasure from the cursor to the end of the frame: the cursor line from
/// the cursor column on, and the whole of every line below it.
pub open spec fn spec_erase_frame(s: ScreenState) -> ScreenState {
    ScreenState {
        buffer: Seq::new(
            s.buffer.len(),
            |l: int|
                Seq::new(
                    s.buffer[l].len(),
                    |c: int|
                        if (l == s.line && c >= s.character) || l > s.line {
                            ' '
                        } else {
                            s.buffer[l][c]
                        },
                ),
        ),
        ..s
    }
}

/// The whole page rolled up one line, the last line blanked.
pub open spec fn spec_roll_up(s: ScreenState) -> ScreenState {
    ScreenState {
        buffer: Seq::new(
            s.buffer.len(),
            |l: int|
                if l < SCREEN_LINES - 1 {
                    s.buffer[l + 1]
                } else {
                    spec_blank_row()
                },
        ),
        ..s
    }
}

/// The effect of the screen control word on the screen state: bit 1 erases
/// to the end of the line, bit 2 erases to the end of the frame, bit 4
/// rolls the page up; the cursor display flag follows bit 4.
pub open spec fn spec_control_word(s: ScreenState, data: u8) -> ScreenState {
    let s1 = if data & 2 != 0 {
        spec_erase_line(s)
    } else {
        s
    };
    let s2 = if data & 4 != 0 {
        spec_erase_frame(s1)
    } else {
        s1
    };
    let s3 = if data & 16 != 0 {
        spec_roll_up(s2)
    } else {
        s2
    };
    ScreenState { cursor_enabled: data & 16 != 0, ..s3 }
}

impl Screen {
    /// A blank screen: every cell a space, cursor at the top left corner,
    /// cursor display off.
    pub fn new() -> (screen: Screen)
        ensures
            screen@ == spec_blank_screen(),
            screen@.wf(),
    {
        let mut buffer: Vec<Vec<char>> = Vec::new();
        while buffer.len() < SCREEN_LINES
            invariant
                buffer@.len() <= SCREEN_LINES,
                forall|l: int| 0 <= l < buffer@.len() ==> buffer@[l]@ == spec_blank_row(),
            decreases SCREEN_LINES - buffer@.len(),
        {
            buffer.push(blank_row());
        }
        let screen = Screen {
            buffer,
            cursor: Cursor { line: 0, character: 0 },
            cursor_enabled: false,
        };
        proof {
            assert(screen@ =~~= spec_blank_screen());
        }
        screen
    }

    /// The screen contents as text: each of the 12 lines' 80 characters,
    /// each line closed with a line terminator.
    pub fn get_screen(&self) -> (r: String)
        requires
            self@.wf(),
        ensures
            r@ == spec_screen_text(self@, SCREEN_LINES as int),
    {
        let mut s = String::new();
        let mut l: usize = 0;
        while l < SCREEN_LINES
            invariant
                self@.wf(),
                l <= SCREEN_LINES,
                s@ == spec_screen_text(self@, l as int),
            decreases SCREEN_LINES - l,
        {
            let mut c: usize = 0;
            while c < SCREEN_COLS
                invariant
                    self@.wf(),
                    l < SCREEN_LINES,
                    c <= SCREEN_COLS,
                    s@ == spec_screen_text(self@, l as int) + self@.buffer[l as int].subrange(
                        0,
                        c as int,
                    ),
                decreases SCREEN_COLS - c,
            {
                push_char(&mut s, self.buffer[l][c]);
                c = c + 1;
                proof {
                    let row = self@.buffer[l as int];
                    assert(s@ =~= spec_screen_text(self@, l as int) + row.subrange(0, c as int));
                }
            }
            push_char(&mut s, '\n');
            l = l + 1;
            proof {
                let row = self@.buffer[l - 1];
                assert(row.subrange(0, SCREEN_COLS as int) =~= row);
                assert(s@ =~= spec_screen_text(self@, l as int));
            }
        }
        s
    }

    /// The screen status byte: bit 0 ("write ready") is always set.
    pub fn get_status(&self) -> (r: u8)
        ensures
            r == 1,
    {
        1
    }

    /// The screen drives no data onto the bus.
    pub fn get_data(&self) -> (r: u8)
        ensures
            r == 0,
    {
        0
    }

    /// Place a character at the cursor; the cursor does not move.
    pub fn write(&mut self, data: u8)
        requires
            old(self)@.wf(),
        ensures
            (final(self)@ == ScreenState {
                buffer: spec_put(
                    old(self)@.buffer,
                    old(self)@.line as int,
                    old(self)@.character as int,
                    data as char,
                ),
                ..old(self)@
            }),
            final(self)@.wf(),
    {
        let l = self.cursor.line;
        let c = self.cursor.character;
        let row = &mut self.buffer[l];
        row.set(c, data as char);
        proof {
            assert(final(self)@ =~~= ScreenState {
                buffer: spec_put(
                    old(self)@.buffer,
                    old(self)@.line as int,
                    old(self)@.character as int,
                    data as char,
                ),
                ..old(self)@
            });
        }
    }

    /// `write` under the name the databus dispatch uses.
    pub fn write_data(&mut self, data: u8)
        requires
            old(self)@.wf(),
        ensures
            (final(self)@ == ScreenState {
                buffer: spec_put(
                    old(self)@.buffer,
                    old(self)@.line as int,
                    old(self)@.character as int,
                    data as char,
                ),
                ..old(self)@
            }),
            final(self)@.wf(),
    {
        self.write(data);
    }

    /// Set the cursor column, when the given column is on the screen;
    /// otherwise nothing changes.
    pub fn set_horizontal(&mut self, data: u8)
        requires
            old(self)@.wf(),
        ensures
            data < SCREEN_COLS ==> (final(self)@ == ScreenState {
                character: data as usize,
                ..old(self)@
            }),
            data >= SCREEN_COLS ==> final(self)@ == old(self)@,
            final(self)@.wf(),
    {
        if (data as usize) < SCREEN_COLS {
            self.cursor.character = data as usize;
        }
    }

    /// Set the cursor line, when the given line is on the screen; otherwise
    /// nothing changes.
    pub fn set_vertical(&mut self, data: u8)
        requires
            old(self)@.wf(),
        ensures
            data < SCREEN_LINES ==> (final(self)@ == ScreenState {
                line: data as usize,
                ..old(self)@
            }),
            data >= SCREEN_LINES ==> final(self)@ == old(self)@,
            final(self)@.wf(),
    {
        if (data as usize) < SCREEN_LINES {
            self.cursor.line = data as usize;
        }
    }

    /// The screen ignores the bus clock.
    pub fn clock(&mut self)
        ensures
            final(self)@ == old(self)@,
    {
    }

    /// The screen ignores the strobe pulse.
    pub fn strobe(&mut self)
        ensures
            final(self)@ == old(self)@,
    {
    }

    /// The screen control word; see `spec_control_word`.
    pub fn control_word(&mut self, data: u8)
        requires
            old(self)@.wf(),
        ensures
            final(self)@ == spec_control_word(old(self)@, data),
            final(self)@.wf(),
    {
        if data & 2 != 0 {
            let ghost before = self@;
            let l = self.cursor.line;
            let mut c = self.cursor.character;
            proof {
                assert(before.buffer =~~= before.buffer.update(
                    l as int,
                    Seq::new(
                        SCREEN_COLS as nat,
                        |cc: int|
                            if before.character <= cc < c {
                                ' '
                            } else {
                                before.buffer[l as int][cc]
                            },
                    ),
                ));
            }
            while c < SCREEN_COLS
                invariant
                    self@.wf(),
                    before.wf(),
                    l == before.line,
                    before.character <= c <= SCREEN_COLS,
                    self@.line == before.line,
                    self@.character == before.character,
                    self@.cursor_enabled == before.cursor_enabled,
                    self@.buffer == before.buffer.update(
                        l as int,
                        Seq::new(
                            SCREEN_COLS as nat,
                            |cc: int|
                                if before.character <= cc < c {
                                    ' '
                                } else {
                                    before.buffer[l as int][cc]
                                },
                        ),
                    ),
                decreases SCREEN_COLS - c,
            {
                proof {
                    assert(self@.buffer[l as int].len() == SCREEN_COLS);
                }
                let ghost prev = self@.buffer;
                let row = &mut self.buffer[l];
                row.set(c, ' ');
                c = c + 1;
                proof {
                    let lhs = self@.buffer;
                    let rhs = before.buffer.update(
                        l as int,
                        Seq::new(
                            SCREEN_COLS as nat,
                            |cc: int|
                                if before.character <= cc < c {
                                    ' '
                                } else {
                                    before.buffer[l as int][cc]
                                },
                        ),
                    );
                    assert(lhs =~~= prev.update(l as int, prev[l as int].update(c - 1, ' ')));
                    assert(lhs.len() == rhs.len());
                    assert forall|i: int| 0 <= i < lhs.len() implies lhs[i] =~= rhs[i] by {
                        if i != l {
                            assert(lhs[i] == prev[i]);
                        }
                    }
                    assert(lhs =~~= rhs);
                }
            }
            proof {
                assert(self@ =~~= spec_erase_line(before));
            }
        }
        let ghost after_line = self@;
        if data & 4 != 0 {
            let line0 = self.cursor.line;
            let char0 = self.cursor.character;
            let mut c = self.cursor.character;
            proof {
                assert(self@.buffer =~~= Seq::new(
                    SCREEN_LINES as nat,
                    |ll: int|
                        Seq::new(
                            SCREEN_COLS as nat,
                            |cc: int|
                                if ll == line0 && char0 <= cc < c {
                                    ' '
                                } else {
                                    after_line.buffer[ll][cc]
                                },
                        ),
                ));
            }
            while c < SCREEN_COLS
                invariant
                    self@.wf(),
                    after_line.wf(),
                    line0 == after_line.line,
                    char0 == after_line.character,
                    char0 <= c <= SCREEN_COLS,
                    self@.line == after_line.line,
                    self@.character == after_line.character,
                    self@.cursor_enabled == after_line.cursor_enabled,
                    self@.buffer == Seq::new(
                        SCREEN_LINES as nat,
                        |ll: int|
                            Seq::new(
                                SCREEN_COLS as nat,
                                |cc: int|
                                    if ll == line0 && char0 <= cc < c {
                                        ' '
                                    } else {
                                        after_line.buffer[ll][cc]
                                    },
                            ),
                    ),
                decreases SCREEN_COLS - c,
            {
                proof {
                    assert(self@.buffer[line0 as int].len() == SCREEN_COLS);
                }
                let ghost prev = self@.buffer;
                let row = &mut self.buffer[line0];
                row.set(c, ' ');
                c = c + 1;
                proof {
                    let lhs = self@.buffer;
                    let rhs = Seq::new(
                        SCREEN_LINES as nat,
                        |ll: int|
                            Seq::new(
                                SCREEN_COLS as nat,
                                |cc: int|
                                    if ll == line0 && char0 <= cc < c {
                                        ' '
                                    } else {
                                        after_line.buffer[ll][cc]
                                    },
                            ),
                    );
                    assert(lhs =~~= prev.update(
                        line0 as int,
                        prev[line0 as int].update(c - 1, ' '),
                    ));
                    assert forall|i: int| 0 <= i < lhs.len() implies lhs[i] =~= rhs[i] by {
                        if i != line0 {
                            assert(lhs[i] == prev[i]);
                        }
                    }
                    assert(lhs =~~= rhs);
                }
            }
            let mut l = line0 + 1;
            proof {
                assert(self@.buffer =~~= Seq::new(
                    SCREEN_LINES as nat,
                    |ll: int|
                        Seq::new(
                            SCREEN_COLS as nat,
                            |cc: int|
                                if (ll == line0 && char0 <= cc) || line0 < ll < l {
                                    ' '
                                } else {
                                    after_line.buffer[ll][cc]
                                },
                        ),
                ));
            }
            while l < SCREEN_LINES
                invariant
                    self@.wf(),
                    after_line.wf(),
                    line0 == after_line.line,
                    char0 == after_line.character,
                    line0 < l <= SCREEN_LINES,
                    self@.line == after_line.line,
                    self@.character == after_line.character,
                    self@.cursor_enabled == after_line.cursor_enabled,
                    self@.buffer == Seq::new(
                        SCREEN_LINES as nat,
                        |ll: int|
                            Seq::new(
                                SCREEN_COLS as nat,
                                |cc: int|
                                    if (ll == line0 && char0 <= cc) || line0 < ll < l {
                                        ' '
                                    } else {
                                        after_line.buffer[ll][cc]
                                    },
                            ),
                    ),
                decreases SCREEN_LINES - l,
            {
                let ghost prev = self@.buffer;
                let blank = blank_row();
                self.buffer.set(l, blank);
                l = l + 1;
                proof {
                    let lhs = self@.buffer;
                    let rhs = Seq::new(
                        SCREEN_LINES as nat,
                        |ll: int|
                            Seq::new(
                                SCREEN_COLS as nat,
                                |cc: int|
                                    if (ll == line0 && char0 <= cc) || line0 < ll < l {
                                        ' '
                                    } else {
                                        after_line.buffer[ll][cc]
                                    },
                            ),
                    );
                    assert(lhs =~~= prev.update(l - 1, spec_blank_row()));
                    assert forall|i: int| 0 <= i < lhs.len() implies lhs[i] =~= rhs[i] by {
                        if i != l - 1 {
                            assert(lhs[i] == prev[i]);
                        }
                    }
                    assert(lhs =~~= rhs);
                }
            }
            proof {
                assert(self@ =~~= spec_erase_frame(after_line));
            }
        }
        let ghost after_frame = self@;
        if data & 16 != 0 {
            let mut l: usize = 0;
            proof {
                assert(self@.buffer =~~= Seq::new(
                    SCREEN_LINES as nat,
                    |ll: int|
                        if ll < l {
                            after_frame.buffer[ll + 1]
                        } else {
                            after_frame.buffer[ll]
                        },
                ));
            }
            while l < SCREEN_LINES - 1
                invariant
                    self@.wf(),
                    after_frame.wf(),
                    l <= SCREEN_LINES - 1,
                    self@.line == after_frame.line,
                    self@.character == after_frame.character,
                    self@.cursor_enabled == after_frame.cursor_enabled,
                    self@.buffer == Seq::new(
                        SCREEN_LINES as nat,
                        |ll: int|
                            if ll < l {
                                after_frame.buffer[ll + 1]
                            } else {
                                after_frame.buffer[ll]
                            },
                    ),
                decreases SCREEN_LINES - l,
            {
                let ghost prev = self@;
                let mut moved: Vec<char> = Vec::new();
                let mut c: usize = 0;
                while c < SCREEN_COLS
                    invariant
                        self@ == prev,
                        prev.wf(),
                        l + 1 < SCREEN_LINES,
                        c <= SCREEN_COLS,
                        moved@ == self@.buffer[l + 1].subrange(0, c as int),
                    decreases SCREEN_COLS - c,
                {
                    moved.push(self.buffer[l + 1][c]);
                    c = c + 1;
                    proof {
                        assert(moved@ =~= self@.buffer[l + 1].subrange(0, c as int));
                    }
                }
                proof {
                    assert(moved@ =~= self@.buffer[l + 1]);
                }
                self.buffer.set(l, moved);
                l = l + 1;
                proof {
                    let lhs = self@.buffer;
                    let rhs = Seq::new(
                        SCREEN_LINES as nat,
                        |ll: int|
                            if ll < l {
                                after_frame.buffer[ll + 1]
                            } else {
                                after_frame.buffer[ll]
                            },
                    );
                    assert(lhs =~~= prev.buffer.update(l - 1, moved@));
                    assert forall|i: int| 0 <= i < lhs.len() implies lhs[i] =~= rhs[i] by {
                        if i != l - 1 {
                            assert(lhs[i] == prev.buffer[i]);
                        }
                    }
                    assert(lhs =~~= rhs);
                }
            }
            let ghost prev = self@;
            let blank = blank_row();
            self.buffer.set(SCREEN_LINES - 1, blank);
            proof {
                let lhs = self@.buffer;
                let rhs = spec_roll_up(after_frame).buffer;
                assert(lhs =~~= prev.buffer.update(SCREEN_LINES - 1, spec_blank_row()));
                assert forall|i: int| 0 <= i < lhs.len() implies lhs[i] =~= rhs[i] by {
                    if i != SCREEN_LINES - 1 {
                        assert(lhs[i] == prev.buffer[i]);
                    }
                }
                assert(lhs =~~= rhs);
                assert(self@ =~~= spec_roll_up(after_frame));
            }
        }
        self.cursor_enabled = data & 16 != 0;
        proof {
            assert(final(self)@ =~~= spec_control_word(old(self)@, data));
        }
    }
}

/// A freshly allocated row of `SCREEN_COLS` spaces.
fn blank_row() -> (row: Vec<char>)
    ensures
        row@ == spec_blank_row(),
{
    let mut row: Vec<char> = Vec::new();
    while row.len() < SCREEN_COLS
        invariant
            row@.len() <= SCREEN_COLS,
            row@ == Seq::new(row@.len(), |c: int| ' '),
        decreases SCREEN_COLS - row@.len(),
    {
        row.push(' ');
        proof {
            assert(row@ =~= Seq::new(row@.len(), |c: int| ' '));
        }
    }
    row
}

} // verus!
