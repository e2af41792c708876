//! The cell type-mapping engine: for one target column and one source row,
//! look the raw value up at the column's position and coerce it to the
//! requested type. A missing position or a value of the wrong shape maps
//! to an absent cell; only a requested type with no mapping rule at all is
//! an error, and that decision is the scanner's.

use vstd::prelude::*;

use crate::cells::{Cell, CellV, CellVal, ColV, RawCell, TargetColumn, TypeOid, opt_cell_view};
use crate::dates::{parse_date_from_interface, spec_decode_date};
use crate::jsonsrc::{row_cells, source_cell};

verus! {

/// The requested types that have a mapping rule.
pub open spec fn spec_col_supported(t: TypeOid) -> bool {
    t == TypeOid::I64 || t == TypeOid::Str || t == TypeOid::Date
}

/// The raw value at `pos` of a row's cell array; a position outside the
/// array is absent.
pub open spec fn spec_raw_at(cells: Seq<CellVal>, pos: int) -> CellVal {
    if 0 <= pos < cells.len() {
        cells[pos]
    } else {
        CellVal::Absent
    }
}

/// What a column makes of one raw value. An absent raw value maps to an
/// absent cell for every requested type, before any type rule applies.
/// For a present value: a 64-bit integer column takes a numeric raw
/// value, a string column takes a textual one, a date column decodes a
/// textual one through the date decoder; everything else is absent.
pub open spec fn spec_coerce(raw: CellVal, t: TypeOid) -> Option<CellV> {
    match raw {
        CellVal::Absent => None,
        _ => match t {
            TypeOid::I64 => match raw {
                CellVal::Num(n) => Some(CellV::I64(n)),
                _ => None,
            },
            TypeOid::Str => match raw {
                CellVal::Text(s) => Some(CellV::Str(s)),
                _ => None,
            },
            TypeOid::Date => match raw {
                CellVal::Text(s) => match spec_decode_date(s) {
                    Some(d) => Some(CellV::Date(d)),
                    None => None,
                },
                _ => None,
            },
            _ => None,
        },
    }
}

/// What one target cell holds, for a column over a row with the given raw
/// cells, wherever the column does not fault the pull.
pub open spec fn spec_map_cell(cells: Seq<CellVal>, col: ColV) -> Option<CellV> {
    spec_coerce(spec_raw_at(cells, col.num - 1), col.type_oid)
}

/// Whether this column aborts the pull on this row: its requested type
/// has no mapping rule and a raw value is present at its position. An
/// unsupported type over an absent position does not fault: the missing
/// value is pushed as an absent cell before the type is ever examined.
pub open spec fn spec_col_faults(cells: Seq<CellVal>, col: ColV) -> bool {
    !spec_col_supported(col.type_oid) && spec_raw_at(cells, col.num - 1) != CellVal::Absent
}

/// A target column whose position is absent in the source row produces an
/// absent cell, for every requested column type, and never raises an
/// error: the column cannot fault the pull.
pub proof fn lemma_absent_position_maps_to_null(cells: Seq<CellVal>, col: ColV)
    requires
        col.num >= 1,
        col.num - 1 >= cells.len() || cells[col.num - 1] == CellVal::Absent,
    ensures
        spec_map_cell(cells, col) is None,
        !spec_col_faults(cells, col),
{
}

/// Map one raw source cell to the cell a supported column produces.
pub(crate) fn coerce_cell(raw: RawCell, col: &TargetColumn) -> (r: Option<Cell>)
    requires
        spec_col_supported(col.type_oid),
    ensures
        opt_cell_view(r) == spec_coerce(raw@, col.type_oid),
{
    match col.type_oid {
        TypeOid::I64 => match raw {
            RawCell::Num(n) => Some(Cell::I64(n)),
            _ => None,
        },
        TypeOid::Str => match raw {
            RawCell::Text(s) => Some(Cell::Str(s)),
            _ => None,
        },
        TypeOid::Date => match raw {
            RawCell::Text(s) => parse_date_from_interface(s.as_str()),
            _ => None,
        },
        _ => None,
    }
}

/// Look the raw value up at the column's 1-based position in the source
/// row and coerce it to the column's requested type.
pub fn map_cell(row: &serde_json::Value, col: &TargetColumn) -> (r: Option<Cell>)
    requires
        spec_col_supported(col.type_oid),
        1 <= col.num,
    ensures
        opt_cell_view(r) == spec_map_cell(row_cells(*row), col@),
{
    let raw = source_cell(row, col.num - 1);
    coerce_cell(raw, col)
}

} // verus!
