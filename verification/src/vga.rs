//! The 80x25 VGA text console: text goes onto the bottom row, and a new line
//! moves every row up by one.
//!
//! The console keeps its own copy of the screen; the caller copies it to
//! the text buffer at [`VGA_BUFFER_ADDRESS`].

use vstd::prelude::*;

verus! {

/// Physical address of the VGA text buffer.
pub const VGA_BUFFER_ADDRESS: usize = 0xB8000;

/// Columns of the text screen.
pub const WIDTH: usize = 80;

/// Rows of the text screen.
pub const HEIGHT: usize = 25;

/// Cells of the text screen.
pub const CELLS: usize = 2000;

/// The colour text is printed in: yellow on black.
pub const TEXT_COLOR: u8 = 0xE;

/// One character cell of the screen.
#[derive(Clone, Copy, Debug, PartialEq, Eq, Structural)]
pub struct VgaCell {
    pub character: u8,
    pub color: u8,
}

/// An empty black cell.
pub open spec fn blank() -> VgaCell {
    VgaCell { character: 0, color: 0 }
}

/// The row of `WIDTH` blank cells.
pub open spec fn blank_row() -> Seq<VgaCell> {
    Seq::new(WIDTH as nat, |i: int| blank())
}

/// The screen after a new line: every row moves up by one and the bottom row
/// is blank. The screen is kept row after row, top row first.
pub open spec fn spec_scroll(cells: Seq<VgaCell>) -> Seq<VgaCell> {
    cells.subrange(WIDTH as int, CELLS as int) + blank_row()
}

/// What byte the screen shows for `ch`: printable ASCII as it is, anything
/// else as `A`.
pub open spec fn shown(ch: u8) -> u8 {
    if 0x20 <= ch < 0x7F {
        ch
    } else {
        0x41
    }
}

/// Console state after printing `ch` in `color`: a new line, or a full
/// bottom row, first scrolls and moves the cursor to column 0; a new line
/// prints nothing more; any other byte is shown at the cursor in the bottom
/// row and the cursor moves right.
pub open spec fn spec_print_byte(state: (nat, Seq<VgaCell>), ch: u8, color: u8) -> (
    nat,
    Seq<VgaCell>,
) {
    let (col, cells) = state;
    let (col1, cells1) = if ch == 10 || col == WIDTH {
        (0nat, spec_scroll(cells))
    } else {
        (col, cells)
    };
    if ch == 10 {
        (col1, cells1)
    } else {
        (
            col1 + 1,
            cells1.update(
                (HEIGHT - 1) * WIDTH + col1,
                VgaCell { character: shown(ch), color },
            ),
        )
    }
}

/// Console state after printing the bytes of `s` one after another.
pub open spec fn spec_print(state: (nat, Seq<VgaCell>), s: Seq<u8>, color: u8) -> (
    nat,
    Seq<VgaCell>,
)
    decreases s.len(),
{
    if s.len() == 0 {
        state
    } else {
        spec_print_byte(spec_print(state, s.drop_last(), color), s.last(), color)
    }
}

/// The text console.
pub struct VGA {
    column: usize,
    cells: Vec<VgaCell>,
}

impl View for VGA {
    /// The cursor column and the screen, row after row.
    type V = (nat, Seq<VgaCell>);

    closed spec fn view(&self) -> (nat, Seq<VgaCell>) {
        (self.column as nat, self.cells@)
    }
}

/// A console state is one the console can be in: a full screen, and the
/// cursor on it or just past its last column.
pub open spec fn console_ok(state: (nat, Seq<VgaCell>)) -> bool {
    state.0 <= WIDTH && state.1.len() == CELLS
}

/// Printing one byte keeps the cursor on the row or just past it; a new line
/// puts it at column 0, any other byte leaves it past the cell it wrote,
/// which is a cell of the bottom row: the screen is the one before the byte,
/// scrolled where the byte was a new line or the row was full, with that one
/// cell changed.
pub proof fn lemma_print_byte_cursor(state: (nat, Seq<VgaCell>), ch: u8, color: u8)
    requires
        console_ok(state),
    ensures
        spec_print_byte(state, ch, color).0 <= WIDTH,
        ch == 10 ==> spec_print_byte(state, ch, color).0 == 0,
        ch != 10 ==> {
            let col = spec_print_byte(state, ch, color).0;
            let before = if state.0 == WIDTH {
                spec_scroll(state.1)
            } else {
                state.1
            };
            &&& 1 <= col <= WIDTH
            &&& (HEIGHT - 1) * WIDTH + col - 1 < CELLS
            &&& spec_print_byte(state, ch, color).1 == before.update(
                (HEIGHT - 1) * WIDTH + col - 1,
                VgaCell { character: shown(ch), color },
            )
        },
{
}

/// Printing keeps the console state one it can be in.
pub proof fn lemma_print_byte_keeps_console_ok(state: (nat, Seq<VgaCell>), ch: u8, color: u8)
    requires
        console_ok(state),
    ensures
        console_ok(spec_print_byte(state, ch, color)),
{
}

impl VGA {
    /// A console with an empty screen and the cursor at column 0.
    pub fn new() -> (v: VGA)
        ensures
            v@ == (0nat, Seq::new(CELLS as nat, |i: int| blank())),
    {
        let mut cells: Vec<VgaCell> = Vec::new();
        let mut i: usize = 0;
        while i < CELLS
            invariant
                i <= CELLS,
                cells@ == Seq::new(i as nat, |k: int| blank()),
            decreases CELLS - i,
        {
            cells.push(VgaCell { character: 0, color: 0 });
            i = i + 1;
            assert(cells@ =~= Seq::new(i as nat, |k: int| blank()));
        }
        VGA { column: 0, cells }
    }

    /// A console over the screen `cells` as found, with the cursor at
    /// column 0.
    pub fn from_cells(cells: Vec<VgaCell>) -> (v: VGA)
        requires
            cells@.len() == CELLS,
        ensures
            v@ == (0nat, cells@),
    {
        VGA { column: 0, cells }
    }

    /// The cursor column.
    pub fn column(&self) -> (c: usize)
        ensures
            c == self@.0,
    {
        self.column
    }

    /// The screen, row after row.
    pub fn cells(&self) -> (c: &[VgaCell])
        ensures
            c@ == self@.1,
    {
        self.cells.as_slice()
    }

    /// Moves every row up by one and blanks the bottom row.
    fn vga_newline(cells: &mut Vec<VgaCell>)
        requires
            old(cells)@.len() == CELLS,
        ensures
            final(cells)@ == spec_scroll(old(cells)@),
    {
        let ghost before = cells@;
        let mut i: usize = 0;
        while i < CELLS - WIDTH
            invariant
                i <= CELLS - WIDTH,
                cells@.len() == CELLS,
                forall|k: int| 0 <= k < i ==> cells@[k] == before[k + WIDTH],
                forall|k: int| i <= k < CELLS ==> cells@[k] == before[k],
            decreases CELLS - WIDTH - i,
        {
            let c = cells[i + WIDTH];
            cells.set(i, c);
            i = i + 1;
        }
        while i < CELLS
            invariant
                CELLS - WIDTH <= i <= CELLS,
                cells@.len() == CELLS,
                forall|k: int| 0 <= k < CELLS - WIDTH ==> cells@[k] == before[k + WIDTH],
                forall|k: int| CELLS - WIDTH <= k < i ==> cells@[k] == blank(),
            decreases CELLS - i,
        {
            cells.set(i, VgaCell { character: 0, color: 0 });
            i = i + 1;
        }
        assert(cells@ =~= spec_scroll(before));
    }

    /// Prints one byte in `color`.
    fn vga_print_byte(&mut self, character: u8, color: u8)
        requires
            console_ok(old(self)@),
        ensures
            final(self)@ == spec_print_byte(old(self)@, character, color),
        decreases (if 0x20 <= character < 0x7F || character == 10 {
            0int
        } else {
            1int
        }),
    {
        if character == 10u8 || self.column == WIDTH {
            Self::vga_newline(&mut self.cells);
            self.column = 0;
        }
        if character == 10u8 {
            return;
        }
        if !(0x20 <= character && character < 0x7F) {
            return self.vga_print_byte(0x41, color);
        }
        let index = (HEIGHT - 1) * WIDTH + self.column;
        self.cells.set(index, VgaCell { character, color });
        self.column = self.column + 1;
    }

    /// Prints the bytes of `s` in yellow.
    pub fn print(&mut self, s: &[u8])
        requires
            console_ok(old(self)@),
        ensures
            final(self)@ == spec_print(old(self)@, s@, TEXT_COLOR),
            console_ok(final(self)@),
    {
        let mut i: usize = 0;
        while i < s.len()
            invariant
                i <= s@.len(),
                self@ == spec_print(old(self)@, s@.take(i as int), TEXT_COLOR),
                console_ok(self@),
            decreases s@.len() - i,
        {
            assert(s@.take(i + 1).drop_last() =~= s@.take(i as int));
            proof {
                lemma_print_byte_keeps_console_ok(self@, s@[i as int], TEXT_COLOR);
            }
            self.vga_print_byte(s[i], TEXT_COLOR);
            i = i + 1;
        }
        assert(s@.take(s@.len() as int) =~= s@);
    }
}

/// Printing two pieces of text one after the other leaves the console as
/// printing them together does.
pub proof fn lemma_print_concat(state: (nat, Seq<VgaCell>), a: Seq<u8>, b: Seq<u8>, color: u8)
    ensures
        spec_print(spec_print(state, a, color), b, color) == spec_print(state, a + b, color),
    decreases b.len(),
{
    if b.len() == 0 {
        assert(a + b =~= a);
    } else {
        lemma_print_concat(state, a, b.drop_last(), color);
        assert((a + b).drop_last() =~= a + b.drop_last());
        assert((a + b).last() == b.last());
    }
}

/// A new line moves the cursor to column 0, moves every row up by one and
/// leaves the bottom row blank.
pub proof fn lemma_newline(state: (nat, Seq<VgaCell>), color: u8)
    requires
        console_ok(state),
    ensures
        spec_print_byte(state, 10, color).0 == 0,
        forall|k: int|
            0 <= k < CELLS - WIDTH ==> #[trigger] spec_print_byte(state, 10, color).1[k]
                == state.1[k + WIDTH],
        forall|k: int|
            CELLS - WIDTH <= k < CELLS ==> #[trigger] spec_print_byte(state, 10, color).1[k]
                == blank(),
{
}

/// A printable byte printed before the end of the bottom row shows at the
/// cursor in the bottom row, the cursor moves right by one and no other cell
/// changes.
pub proof fn lemma_print_printable(state: (nat, Seq<VgaCell>), ch: u8, color: u8)
    requires
        console_ok(state),
        state.0 < WIDTH,
        0x20 <= ch < 0x7F,
    ensures
        spec_print_byte(state, ch, color).0 == state.0 + 1,
        spec_print_byte(state, ch, color).1 == state.1.update(
            (HEIGHT - 1) * WIDTH + state.0,
            VgaCell { character: ch, color },
        ),
{
}

/// Printing the one-byte text `ch` is printing the byte `ch`.
pub proof fn lemma_print_one_byte(state: (nat, Seq<VgaCell>), ch: u8, color: u8)
    ensures
        spec_print(state, seq![ch], color) == spec_print_byte(state, ch, color),
{
    assert(seq![ch].drop_last() =~= Seq::<u8>::empty());
    assert(spec_print(state, Seq::<u8>::empty(), color) == state);
    assert(seq![ch].last() == ch);
}

/// Printing text one byte longer is printing the text, then the last byte.
pub proof fn lemma_print_push(state: (nat, Seq<VgaCell>), s: Seq<u8>, ch: u8, color: u8)
    ensures
        spec_print(state, s.push(ch), color) == spec_print_byte(
            spec_print(state, s, color),
            ch,
            color,
        ),
{
    assert(s.push(ch).drop_last() =~= s);
}

/// Printing a printable ASCII byte (0x20 to 0x7E, space included) before the
/// end of the bottom row puts that very byte, in the given colour, in the
/// bottom row at the cursor, moves the cursor right by one and changes no
/// other cell; a byte outside that range, other than a new line, shows as
/// `A` there instead.
pub proof fn lemma_print_shows_byte(state: (nat, Seq<VgaCell>), ch: u8, color: u8)
    requires
        console_ok(state),
        state.0 < WIDTH,
        ch != 10,
    ensures
        spec_print(state, seq![ch], color).0 == state.0 + 1,
        spec_print(state, seq![ch], color).1.len() == CELLS,
        spec_print(state, seq![ch], color).1[(HEIGHT - 1) * WIDTH + state.0] == (VgaCell {
            character: if 0x20 <= ch <= 0x7E {
                ch
            } else {
                0x41u8
            },
            color,
        }),
        forall|k: int|
            0 <= k < CELLS && k != (HEIGHT - 1) * WIDTH + state.0 ==> #[trigger] spec_print(
                state,
                seq![ch],
                color,
            ).1[k] == state.1[k],
{
    lemma_print_one_byte(state, ch, color);
}

} // verus!
