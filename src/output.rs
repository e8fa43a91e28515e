//! The row being built: one cell per column of the table, filled from the
//! annotations seen since the last variable line.
use vstd::prelude::*;

verus! {

/// The number of columns of the table.
pub const SLOT_COUNT: usize = 8;

/// The first line of the table: the column names.
pub const ENV_FILE_HEADERS: &'static str =
    "| Key | Responsible | Type | Secret | Policy | Default value | Description | Docs |";

/// The second line of the table, which separates the names from the rows.
pub const ENV_FILE_HEADER_SEPARATOR: &'static str =
    "| --------- | --------- | --------- | --------- | --------- | --------- | --------- | --------- |";

/// A column of the table, in the order in which the columns are written.
#[derive(Clone, Copy, Debug, PartialEq, Eq, Structural)]
pub enum FieldKind {
    EnvVariable,
    Responsible,
    Type,
    Secret,
    Policy,
    DefaultValue,
    Description,
    Docs,
}

impl FieldKind {
    /// The position of the column, counted from zero.
    pub open spec fn position(self) -> u8 {
        match self {
            FieldKind::EnvVariable => 0,
            FieldKind::Responsible => 1,
            FieldKind::Type => 2,
            FieldKind::Secret => 3,
            FieldKind::Policy => 4,
            FieldKind::DefaultValue => 5,
            FieldKind::Description => 6,
            FieldKind::Docs => 7,
        }
    }
}

impl From<FieldKind> for u8 {
    fn from(k: FieldKind) -> (r: u8)
        ensures
            r == k.position(),
    {
        match k {
            FieldKind::EnvVariable => 0,
            FieldKind::Responsible => 1,
            FieldKind::Type => 2,
            FieldKind::Secret => 3,
            FieldKind::Policy => 4,
            FieldKind::DefaultValue => 5,
            FieldKind::Description => 6,
            FieldKind::Docs => 7,
        }
    }
}

impl vstd::std_specs::convert::FromSpecImpl<FieldKind> for u8 {
    open spec fn obeys_from_spec() -> bool {
        true
    }

    open spec fn from_spec(k: FieldKind) -> u8 {
        k.position()
    }
}

/// A row with every cell unset.
pub open spec fn empty_cells() -> Seq<Option<Seq<char>>> {
    Seq::new(SLOT_COUNT as nat, |i: int| None)
}

/// What a cell holds once `v` is added to it: `v` after a comma where the cell
/// was set, `v` alone where it was not.
pub open spec fn joined(cur: Option<Seq<char>>, v: Seq<char>) -> Seq<char> {
    match cur {
        Some(s) => s + seq![','] + v,
        None => v,
    }
}

/// The row `cells` once `v` is added to the cell at `i`.
pub open spec fn added(cells: Seq<Option<Seq<char>>>, i: int, v: Seq<char>) -> Seq<
    Option<Seq<char>>,
> {
    cells.update(i, Some(joined(cells[i], v)))
}

/// The text of a cell: empty where it is unset.
pub open spec fn cell_text(c: Option<Seq<char>>) -> Seq<char> {
    match c {
        Some(s) => s,
        None => Seq::empty(),
    }
}

/// The first `n` cells, each followed by `|`.
pub open spec fn cells_text(cells: Seq<Option<Seq<char>>>, n: nat) -> Seq<char>
    decreases n,
{
    if n == 0 {
        Seq::empty()
    } else {
        cells_text(cells, (n - 1) as nat) + cell_text(cells[n - 1]) + seq!['|']
    }
}

/// The markdown line of a row: its cells between pipes, then a newline.
pub open spec fn render_row(cells: Seq<Option<Seq<char>>>) -> Seq<char> {
    seq!['|'] + cells_text(cells, cells.len()) + seq!['\n']
}

/// The two lines that open the table, each ending in a newline.
pub open spec fn header_text() -> Seq<char> {
    ENV_FILE_HEADERS@ + seq!['\n'] + ENV_FILE_HEADER_SEPARATOR@ + seq!['\n']
}

pub open spec fn opt_view(c: Option<String>) -> Option<Seq<char>> {
    match c {
        Some(s) => Some(s@),
        None => None,
    }
}

/// The cells of the row being built.
pub struct Output {
    cells: Vec<Option<String>>,
}

impl View for Output {
    type V = Seq<Option<Seq<char>>>;

    closed spec fn view(&self) -> Seq<Option<Seq<char>>> {
        Seq::new(self.cells@.len(), |i: int| opt_view(self.cells@[i]))
    }
}

fn unset_cells() -> (r: Vec<Option<String>>)
    ensures
        r@.len() == SLOT_COUNT,
        forall|i: int| 0 <= i < SLOT_COUNT ==> r@[i] is None,
{
    let mut cells: Vec<Option<String>> = Vec::new();
    let mut i: usize = 0;
    while i < SLOT_COUNT
        invariant
            i <= SLOT_COUNT,
            cells@.len() == i,
            forall|j: int| 0 <= j < i ==> cells@[j] is None,
        decreases SLOT_COUNT - i,
    {
        cells.push(None);
        i = i + 1;
    }
    cells
}

impl Output {
    /// Whether the row has one cell per column.
    pub open spec fn wf(&self) -> bool {
        self@.len() == SLOT_COUNT
    }

    /// A row with every cell unset.
    pub fn new() -> (r: Self)
        ensures
            r@ == empty_cells(),
    {
        let r = Output { cells: unset_cells() };
        assert(r@ =~= empty_cells());
        r
    }

    /// Adds `value` to the cell at `index`, after a comma where the cell is
    /// already set.
    pub fn add_at(&mut self, index: u8, value: String)
        requires
            old(self).wf(),
            index < SLOT_COUNT,
        ensures
            final(self)@ == added(old(self)@, index as int, value@),
    {
        let i = index as usize;
        let mut cur: Option<String> = None;
        self.cells.set_and_swap(i, &mut cur);
        proof {
            reveal_strlit(",");
            assert(","@ =~= seq![',']);
            assert(opt_view(cur) == old(self)@[i as int]);
        }
        let next = match cur {
            Some(mut s) => {
                s.append(",");
                s.append(value.as_str());
                s
            },
            None => value,
        };
        assert(next@ =~= joined(old(self)@[i as int], value@));
        self.cells.set(i, Some(next));
        assert(self@ =~= added(old(self)@, index as int, value@));
    }

    /// Unsets every cell.
    pub fn clear(&mut self)
        ensures
            final(self)@ == empty_cells(),
    {
        self.cells = unset_cells();
        assert(self@ =~= empty_cells());
    }

    /// The markdown line of the row, unset cells written empty.
    pub fn as_string(&self) -> (r: String)
        requires
            self.wf(),
        ensures
            r@ == render_row(self@),
    {
        let mut r = String::from_str("|");
        proof {
            reveal_strlit("|");
            reveal_strlit("\n");
            assert("|"@ =~= seq!['|']);
            assert("\n"@ =~= seq!['\n']);
        }
        let mut i: usize = 0;
        while i < SLOT_COUNT
            invariant
                i <= SLOT_COUNT,
                self@.len() == SLOT_COUNT,
                self.cells@.len() == SLOT_COUNT,
                r@ == seq!['|'] + cells_text(self@, i as nat),
            decreases SLOT_COUNT - i,
        {
            let ghost before = r@;
            match &self.cells[i] {
                Some(s) => r.append(s.as_str()),
                None => {},
            }
            assert(self@[i as int] == opt_view(self.cells@[i as int]));
            assert(r@ =~= before + cell_text(self@[i as int]));
            let ghost mid = r@;
            r.append("|");
            proof {
                reveal_strlit("|");
                assert("|"@ =~= seq!['|']);
                assert(r@ =~= mid + seq!['|']);
            }
            assert(cells_text(self@, (i + 1) as nat) == cells_text(self@, i as nat) + cell_text(
                self@[i as int],
            ) + seq!['|']);
            assert(r@ =~= seq!['|'] + cells_text(self@, (i + 1) as nat));
            i = i + 1;
        }
        r.append("\n");
        assert(r@ =~= render_row(self@));
        r
    }
}

/// The two lines that open the table.
pub fn header_lines() -> (r: String)
    ensures
        r@ == header_text(),
{
    let mut r = String::from_str(ENV_FILE_HEADERS);
    r.append("\n");
    r.append(ENV_FILE_HEADER_SEPARATOR);
    r.append("\n");
    proof {
        reveal_strlit("\n");
    }
    r
}

} // verus!
