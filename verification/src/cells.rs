//! Data carried between the source, the scanner and the host: raw source
//! cells, typed target cells, calendar dates, target columns and target rows.

use vstd::prelude::*;

verus! {

/// A calendar date with a zero time component.
#[derive(Debug, Clone, Copy, PartialEq, Eq, Structural)]
pub struct DateVal {
    pub year: u32,
    pub month: u32,
    pub day: u32,
}

/// Spec-level value of one raw source cell.
pub enum CellVal {
    /// The position is missing from the row, or holds an explicit null.
    Absent,
    /// A numeric value, already truncated to a 64-bit integer.
    Num(int),
    /// A textual value.
    Text(Seq<char>),
    /// A value of some other shape (boolean, array, object).
    Other,
}

/// One raw source cell as the row store hands it to the mapper: absent, a
/// numeric value truncated to a 64-bit integer, a string, or something else.
#[derive(Debug, Clone, PartialEq)]
pub enum RawCell {
    Absent,
    Num(i64),
    Text(String),
    Other,
}

impl View for RawCell {
    type V = CellVal;

    open spec fn view(&self) -> CellVal {
        match self {
            RawCell::Absent => CellVal::Absent,
            RawCell::Num(n) => CellVal::Num(*n as int),
            RawCell::Text(s) => CellVal::Text(s@),
            RawCell::Other => CellVal::Other,
        }
    }
}

/// Spec-level value of one typed target cell.
pub enum CellV {
    I64(int),
    Str(Seq<char>),
    Date(DateVal),
}

/// One typed unit of row data communicated to the host: a 64-bit integer, a
/// string, or a calendar date. An absent cell is `None` at the `Option` level.
#[derive(Debug, Clone, PartialEq)]
pub enum Cell {
    I64(i64),
    Str(String),
    Date(DateVal),
}

impl View for Cell {
    type V = CellV;

    open spec fn view(&self) -> CellV {
        match self {
            Cell::I64(n) => CellV::I64(*n as int),
            Cell::Str(s) => CellV::Str(s@),
            Cell::Date(d) => CellV::Date(*d),
        }
    }
}

/// The view of a possibly-absent target cell.
pub open spec fn opt_cell_view(c: Option<Cell>) -> Option<CellV> {
    match c {
        Some(cell) => Some(cell@),
        None => None,
    }
}

/// The semantic type a target column requests, a closed enumeration. Only
/// `I64`, `Str` and `Date` have a mapping rule.
#[derive(Debug, Clone, Copy, PartialEq, Eq, Structural)]
pub enum TypeOid {
    Bool,
    I64,
    Str,
    Date,
    Timestamp,
    Json,
}

/// Spec-level value of a target column.
pub struct ColV {
    pub num: int,
    pub name: Seq<char>,
    pub type_oid: TypeOid,
}

/// A target column: 1-based ordinal position, name, and requested type.
#[derive(Debug, Clone)]
pub struct TargetColumn {
    pub num: usize,
    pub name: String,
    pub type_oid: TypeOid,
}

impl View for TargetColumn {
    type V = ColV;

    open spec fn view(&self) -> ColV {
        ColV { num: self.num as int, name: self.name@, type_oid: self.type_oid }
    }
}

/// A target row under construction: the cells pushed so far, in column order.
#[derive(Debug, Clone, PartialEq)]
pub struct Row {
    pub cells: Vec<Option<Cell>>,
}

impl View for Row {
    type V = Seq<Option<CellV>>;

    open spec fn view(&self) -> Seq<Option<CellV>> {
        self.cells@.map_values(|c: Option<Cell>| opt_cell_view(c))
    }
}

impl Row {
    /// An empty target row.
    pub fn new() -> (r: Row)
        ensures
            r@ == Seq::<Option<CellV>>::empty(),
    {
        let r = Row { cells: Vec::new() };
        proof {
            assert(r@ =~= Seq::<Option<CellV>>::empty());
        }
        r
    }

    /// Append one cell to the row.
    pub fn push(&mut self, c: Option<Cell>)
        ensures
            final(self)@ == old(self)@.push(opt_cell_view(c)),
    {
        let ghost prev = self@;
        self.cells.push(c);
        proof {
            assert(self@ =~= prev.push(opt_cell_view(c)));
        }
    }

    /// The number of cells pushed so far.
    pub fn len(&self) -> (r: usize)
        ensures
            r == self@.len(),
    {
        self.cells.len()
    }

    /// The cell at position `i`.
    pub fn cell_at(&self, i: usize) -> (r: &Option<Cell>)
        requires
            i < self@.len(),
        ensures
            opt_cell_view(*r) == self@[i as int],
    {
        &self.cells[i]
    }
}

} // verus!
