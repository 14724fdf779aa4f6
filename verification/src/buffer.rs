//! The grid of display cells, held in volatile memory.

use crate::color::ColorCode;
use volatile::Volatile;
use vstd::prelude::*;

verus! {

/// Columns of the grid.
pub const BUFFER_WIDTH: usize = 80;

/// Rows of the grid.
pub const BUFFER_HEIGHT: usize = 25;

/// One cell of the grid: a glyph of the device's code page and the colours
/// it is shown in.
#[derive(Debug, Clone, Copy, PartialEq, Eq, Structural)]
pub struct ScreenChar {
    pub ascii_character: u8,
    pub color_code: ColorCode,
}

impl ScreenChar {
    /// The cell as the device holds it: the glyph byte, then the attribute
    /// byte.
    pub open spec fn bytes(self) -> Seq<u8> {
        seq![self.ascii_character, self.color_code.byte()]
    }

    /// The cell that two device bytes stand for.
    pub open spec fn of_bytes(bytes: Seq<u8>) -> ScreenChar
        recommends
            bytes.len() == 2,
    {
        ScreenChar { ascii_character: bytes[0], color_code: ColorCode(bytes[1]) }
    }

    /// Computes [`ScreenChar::bytes`].
    pub fn to_bytes(self) -> (bytes: [u8; 2])
        ensures
            bytes@ == self.bytes(),
            ScreenChar::of_bytes(bytes@) == self,
        no_unwind
    {
        let bytes: [u8; 2] = [self.ascii_character, self.color_code.to_byte()];
        assert(bytes@ =~= self.bytes());
        bytes
    }

    /// Computes [`ScreenChar::of_bytes`].
    pub fn from_bytes(bytes: [u8; 2]) -> (cell: ScreenChar)
        ensures
            cell == ScreenChar::of_bytes(bytes@),
            cell.bytes() == bytes@,
    {
        let cell = ScreenChar { ascii_character: bytes[0], color_code: ColorCode(bytes[1]) };
        assert(cell.bytes() =~= bytes@);
        cell
    }
}

/// `volatile::Volatile`, a value that is only ever read and written by
/// volatile accesses.
#[verifier::external_type_specification]
#[verifier::external_body]
#[verifier::reject_recursive_types(T)]
pub struct ExVolatile<T: Copy>(Volatile<T>);

/// The two bytes that a volatile cell holds.
pub uninterp spec fn stored(cell: Volatile<[u8; 2]>) -> Seq<u8>;

/// `Volatile::new`: a cell that holds `bytes`.
#[verifier::external_body]
fn volatile_new(bytes: [u8; 2]) -> (cell: Volatile<[u8; 2]>)
    ensures
        stored(cell) == bytes@,
{
    Volatile::new(bytes)
}

/// `Volatile::read`: one volatile read, which gives the bytes that the
/// cell holds.
#[verifier::external_body]
fn volatile_read(cell: &Volatile<[u8; 2]>) -> (bytes: [u8; 2])
    ensures
        bytes@ == stored(*cell),
{
    cell.read()
}

/// `Volatile::write`: one volatile write, after which the cell holds
/// `bytes`. It cannot panic.
#[verifier::external_body]
fn volatile_write(cell: &mut Volatile<[u8; 2]>, bytes: [u8; 2])
    ensures
        stored(*final(cell)) == bytes@,
    no_unwind
{
    cell.write(bytes)
}

/// The grid: `BUFFER_HEIGHT` rows of `BUFFER_WIDTH` cells, row by row.
pub struct Buffer {
    chars: Vec<Volatile<[u8; 2]>>,
}

/// A grid as a value: its rows from the top, each a sequence of cells.
pub type Rows = Seq<Seq<ScreenChar>>;

/// Whether `rows` has the shape of the grid.
pub open spec fn well_shaped(rows: Rows) -> bool {
    &&& rows.len() == BUFFER_HEIGHT
    &&& forall|r: int| 0 <= r < BUFFER_HEIGHT ==> (#[trigger] rows[r]).len() == BUFFER_WIDTH
}

impl Buffer {
    #[verifier::type_invariant]
    spec fn sized(self) -> bool {
        self.chars.len() == BUFFER_WIDTH * BUFFER_HEIGHT
    }

    /// The cell at `(row, col)`.
    pub closed spec fn cell(self, row: int, col: int) -> ScreenChar {
        ScreenChar::of_bytes(stored(self.chars@[row * BUFFER_WIDTH + col]))
    }

    /// The rows of the grid, from the top.
    pub open spec fn view(self) -> Rows {
        Seq::new(
            BUFFER_HEIGHT as nat,
            |r: int| Seq::new(BUFFER_WIDTH as nat, |c: int| self.cell(r, c)),
        )
    }

    /// A grid over `cells`, if there are as many as the grid has.
    pub fn over(cells: Vec<Volatile<[u8; 2]>>) -> (buffer: Option<Buffer>)
        ensures
            buffer.is_some() <==> cells.len() == BUFFER_WIDTH * BUFFER_HEIGHT,
            buffer matches Some(b) ==> forall|r: int, c: int|
                0 <= r < BUFFER_HEIGHT && 0 <= c < BUFFER_WIDTH ==> #[trigger] b.cell(r, c)
                    == ScreenChar::of_bytes(stored(cells@[r * BUFFER_WIDTH + c])),
    {
        if cells.len() == BUFFER_WIDTH * BUFFER_HEIGHT {
            Some(Buffer { chars: cells })
        } else {
            None
        }
    }

    /// A grid in ordinary memory with `fill` in every cell.
    pub fn new(fill: ScreenChar) -> (buffer: Buffer)
        ensures
            forall|r: int, c: int|
                0 <= r < BUFFER_HEIGHT && 0 <= c < BUFFER_WIDTH ==> #[trigger] buffer.cell(r, c)
                    == fill,
    {
        let mut chars: Vec<Volatile<[u8; 2]>> = Vec::new();
        let mut i: usize = 0;
        while i < BUFFER_WIDTH * BUFFER_HEIGHT
            invariant
                i <= BUFFER_WIDTH * BUFFER_HEIGHT,
                chars.len() == i,
                forall|k: int| 0 <= k < i ==> ScreenChar::of_bytes(stored(#[trigger] chars@[k])) == fill,
            decreases BUFFER_WIDTH * BUFFER_HEIGHT - i,
        {
            chars.push(volatile_new(fill.to_bytes()));
            i += 1;
        }
        Buffer { chars }
    }

    /// Reads the cell at `(row, col)` with one volatile access.
    pub fn read(&self, row: usize, col: usize) -> (cell: ScreenChar)
        requires
            row < BUFFER_HEIGHT,
            col < BUFFER_WIDTH,
        ensures
            cell == self.cell(row as int, col as int),
            cell == self@[row as int][col as int],
    {
        proof {
            use_type_invariant(self);
        }
        ScreenChar::from_bytes(volatile_read(&self.chars[row * BUFFER_WIDTH + col]))
    }

    /// Writes `cell` at `(row, col)` with one volatile access; no other
    /// cell changes.
    pub fn write(&mut self, row: usize, col: usize, cell: ScreenChar)
        requires
            row < BUFFER_HEIGHT,
            col < BUFFER_WIDTH,
        ensures
            final(self).cell(row as int, col as int) == cell,
            forall|r: int, c: int|
                0 <= r < BUFFER_HEIGHT && 0 <= c < BUFFER_WIDTH && !(r == row && c == col)
                    ==> #[trigger] final(self).cell(r, c) == old(self).cell(r, c),
            final(self)@ == old(self)@.update(
                row as int,
                old(self)@[row as int].update(col as int, cell),
            ),
        no_unwind
    {
        proof {
            use_type_invariant(&*self);
        }
        volatile_write(&mut self.chars[row * BUFFER_WIDTH + col], cell.to_bytes());
        assert(final(self)@ =~~= old(self)@.update(
            row as int,
            old(self)@[row as int].update(col as int, cell),
        ));
    }
}

/// A cell that was written is the cell that is read back, at every place
/// of the grid.
pub proof fn law_write_then_read(before: Rows, row: int, col: int, cell: ScreenChar)
    requires
        well_shaped(before),
        0 <= row < BUFFER_HEIGHT,
        0 <= col < BUFFER_WIDTH,
    ensures
        before.update(row, before[row].update(col, cell))[row][col] == cell,
        well_shaped(before.update(row, before[row].update(col, cell))),
{
}

} // verus!
