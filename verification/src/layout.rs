//! The column layout of the table: three advice (witness) wires, the four
//! selector columns of its custom gate, and one instance column, together with
//! the cells that name a coordinate in the synthesized table.

use vstd::prelude::*;

verus! {

/// One of the three advice (witness) columns of the table.
#[derive(Clone, Copy, PartialEq, Eq, Structural, Debug)]
pub enum Wire {
    /// The left operand column.
    L,
    /// The right operand column.
    R,
    /// The output column.
    O,
}

/// A reference to one (advice column, row) coordinate of the table.  Cells
/// are produced by the composer operations after the row they name has
/// been assigned, and are consumed by `copy` and `expose_public`.
#[derive(Clone, Copy, PartialEq, Eq, Structural, Debug)]
pub struct Cell {
    pub wire: Wire,
    pub row: usize,
}

/// The table schema, as fixed at configuration time.  The columns
/// themselves are implicit in the shape of a row; what the layout records
/// is which columns were enabled for the permutation (equality) argument,
/// since `copy` and `expose_public` are only lawful on enabled columns.
#[derive(Clone, Copy, PartialEq, Eq, Structural, Debug)]
pub struct TutorialConfig {
    pub eq_l: bool,
    pub eq_r: bool,
    pub eq_o: bool,
    pub eq_instance: bool,
}

/// Whether the layout enabled the given advice wire for equality.
pub open spec fn wire_eq_enabled(config: TutorialConfig, wire: Wire) -> bool {
    match wire {
        Wire::L => config.eq_l,
        Wire::R => config.eq_r,
        Wire::O => config.eq_o,
    }
}

/// Decide whether the layout enabled the given advice wire for equality.
pub fn wire_enabled(config: TutorialConfig, wire: Wire) -> (r: bool)
    ensures
        r == wire_eq_enabled(config, wire),
{
    match wire {
        Wire::L => config.eq_l,
        Wire::R => config.eq_r,
        Wire::O => config.eq_o,
    }
}

/// Declare the table schema: a pure record step that cannot fail.  All
/// three advice wires and the instance column are enabled for equality,
/// so that any cell the composer returns may enter a copy constraint or
/// be exposed as a public input.
pub fn configure() -> (config: TutorialConfig)
    ensures
        config == (TutorialConfig { eq_l: true, eq_r: true, eq_o: true, eq_instance: true }),
{
    TutorialConfig { eq_l: true, eq_r: true, eq_o: true, eq_instance: true }
}

} // verus!
