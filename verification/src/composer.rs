//! The composer: a chip and the four operations a circuit is
//! built from.  `raw_add` and `raw_multiply` allocate one row each under
//! the addition and multiplication selector patterns, `copy` joins two
//! cells under the permutation argument, and `expose_public` binds a
//! cell to a row of the instance column.

use vstd::prelude::*;
use crate::field::{fadd, fmul, lemma_add_gate, lemma_mul_gate, Fe, MODULUS};
use crate::layout::{wire_enabled, wire_eq_enabled, Cell, TutorialConfig, Wire};
use crate::table::{Row, Table};

verus! {

/// The errors the composer itself can raise.  Failures of the external
/// row-placement machinery are not modeled here: in this table, laying
/// down a row always succeeds.
#[derive(Clone, Copy, PartialEq, Eq, Structural, Debug)]
pub enum ComposerError {
    /// `copy` or `expose_public` named a column that the layout did not
    /// enable for the permutation argument: a fatal configuration error.
    EqualityNotEnabled,
}

/// A chip over the column layout: it binds it and carries no other state,
/// so any number of chips over one layout may coexist.
#[derive(Clone, Copy, PartialEq, Eq, Structural, Debug)]
pub struct TutorialChip {
    pub config: TutorialConfig,
}

impl TutorialChip {
    /// Wrap a column layout; performs no table mutation and cannot fail.
    pub fn new(config: TutorialConfig) -> (chip: Self)
        ensures
            chip.config == config,
    {
        TutorialChip { config }
    }
}

/// The witness values a producer hands to `raw_add` or `raw_multiply`:
/// a triple of field elements, or `None` in the witness-less pass.
pub open spec fn witness_wf(w: Option<(Fe, Fe, Fe)>) -> bool {
    match w {
        Some(t) => t.0.wf() && t.1.wf() && t.2.wf(),
        None => true,
    }
}

/// The row `raw_add` lays down: advice from the witness, selectors
/// `sl = sr = 1, sm = 0, so = -1`, reducing its custom-gate identity to
/// `l + r - o = 0`.
pub open spec fn add_row(w: Option<(Fe, Fe, Fe)>) -> Row {
    Row {
        l: match w { Some(t) => Some(t.0), None => None },
        r: match w { Some(t) => Some(t.1), None => None },
        o: match w { Some(t) => Some(t.2), None => None },
        sl: Fe { v: 1 },
        sr: Fe { v: 1 },
        sm: Fe { v: 0 },
        so: Fe { v: (MODULUS - 1) as u64 },
    }
}

/// The row `raw_multiply` lays down: advice from the witness, selectors
/// `sl = sr = 0, sm = 1, so = -1`, reducing its custom-gate identity to
/// `l * r - o = 0`.
pub open spec fn mul_row(w: Option<(Fe, Fe, Fe)>) -> Row {
    Row {
        l: match w { Some(t) => Some(t.0), None => None },
        r: match w { Some(t) => Some(t.1), None => None },
        o: match w { Some(t) => Some(t.2), None => None },
        sl: Fe { v: 0 },
        sr: Fe { v: 0 },
        sm: Fe { v: 1 },
        so: Fe { v: (MODULUS - 1) as u64 },
    }
}

/// How `raw_add` changes the table: one new row at the end, nothing else.
pub open spec fn raw_add_post(pre: Table, post: Table, w: Option<(Fe, Fe, Fe)>) -> bool {
    &&& post.rows@ == pre.rows@.push(add_row(w))
    &&& post.copies@ == pre.copies@
    &&& post.exposures@ == pre.exposures@
}

/// How `raw_multiply` changes the table.
pub open spec fn raw_mul_post(pre: Table, post: Table, w: Option<(Fe, Fe, Fe)>) -> bool {
    &&& post.rows@ == pre.rows@.push(mul_row(w))
    &&& post.copies@ == pre.copies@
    &&& post.exposures@ == pre.exposures@
}

/// How a successful `copy` changes the table: one new copy constraint.
pub open spec fn copy_post(pre: Table, post: Table, a: Cell, b: Cell) -> bool {
    &&& post.rows@ == pre.rows@
    &&& post.copies@ == pre.copies@.push((a, b))
    &&& post.exposures@ == pre.exposures@
}

/// How a successful `expose_public` changes the table: one new exposure.
pub open spec fn expose_post(pre: Table, post: Table, cell: Cell, row: usize) -> bool {
    &&& post.rows@ == pre.rows@
    &&& post.copies@ == pre.copies@
    &&& post.exposures@ == pre.exposures@.push((cell, row))
}

/// The cells an operation returns for a row it laid down at `row`.
pub open spec fn row_cells(row: usize) -> (Cell, Cell, Cell) {
    (
        Cell { wire: Wire::L, row },
        Cell { wire: Wire::R, row },
        Cell { wire: Wire::O, row },
    )
}

/// The operations a circuit is composed from.  Each call allocates or
/// constrains rows of the table handed to it; the contracts pin down the
/// exact table that results.
pub trait TutorialComposer {
    /// The column layout the composer operates under.
    spec fn cfg(&self) -> TutorialConfig;

    /// Allocate one new row enforcing field addition: the selector
    /// pattern makes its custom-gate identity hold on the new row exactly when
    /// its output advice value is the field sum of its two operands.
    /// Returns the three cells of the new row.
    fn raw_add(&self, table: &mut Table, witness: Option<(Fe, Fe, Fe)>) -> (cells: (
        Cell,
        Cell,
        Cell,
    ))
        requires
            old(table).wf(),
            witness_wf(witness),
        ensures
            final(table).wf(),
            raw_add_post(*old(table), *final(table), witness),
            cells == row_cells(old(table).rows.len() as usize),
            final(table).cell_in_range(cells.0),
            final(table).cell_in_range(cells.1),
            final(table).cell_in_range(cells.2),
            witness matches Some((a, b, c)) ==> (add_row(witness).satisfied() <==> c.v == fadd(
                a.v as int,
                b.v as int,
            )),
    ;

    /// Allocate one new row enforcing field multiplication, as `raw_add`
    /// but with a custom-gate identity holding exactly when the output advice
    /// value is the field product of the two operands.
    fn raw_multiply(&self, table: &mut Table, witness: Option<(Fe, Fe, Fe)>) -> (cells: (
        Cell,
        Cell,
        Cell,
    ))
        requires
            old(table).wf(),
            witness_wf(witness),
        ensures
            final(table).wf(),
            raw_mul_post(*old(table), *final(table), witness),
            cells == row_cells(old(table).rows.len() as usize),
            final(table).cell_in_range(cells.0),
            final(table).cell_in_range(cells.1),
            final(table).cell_in_range(cells.2),
            witness matches Some((a, b, c)) ==> (mul_row(witness).satisfied() <==> c.v == fmul(
                a.v as int,
                b.v as int,
            )),
    ;

    /// Declare the two cells equivalent under the permutation argument,
    /// so that any witness giving them unequal values is rejected at
    /// verification.  Fails, leaving the table unchanged, exactly when a
    /// cell lies in a column the layout did not enable for equality.
    fn copy(&self, table: &mut Table, a: Cell, b: Cell) -> (r: Result<(), ComposerError>)
        requires
            old(table).wf(),
            old(table).cell_in_range(a),
            old(table).cell_in_range(b),
        ensures
            final(table).wf(),
            r is Ok <==> wire_eq_enabled(self.cfg(), a.wire) && wire_eq_enabled(
                self.cfg(),
                b.wire,
            ),
            r is Ok ==> copy_post(*old(table), *final(table), a, b),
            r is Err ==> *final(table) == *old(table) && r == Err::<(), ComposerError>(
                ComposerError::EqualityNotEnabled,
            ),
    ;

    /// Bind the cell's value to the instance column at the given row, so
    /// that the public input supplied there must equal the cell's value.
    /// Fails, leaving the table unchanged, exactly when the cell's
    /// column or the instance column is not enabled for equality.
    fn expose_public(&self, table: &mut Table, cell: Cell, row: usize) -> (r: Result<
        (),
        ComposerError,
    >)
        requires
            old(table).wf(),
            old(table).cell_in_range(cell),
        ensures
            final(table).wf(),
            r is Ok <==> wire_eq_enabled(self.cfg(), cell.wire) && self.cfg().eq_instance,
            r is Ok ==> expose_post(*old(table), *final(table), cell, row),
            r is Err ==> *final(table) == *old(table) && r == Err::<(), ComposerError>(
                ComposerError::EqualityNotEnabled,
            ),
    ;
}

impl TutorialComposer for TutorialChip {
    open spec fn cfg(&self) -> TutorialConfig {
        self.config
    }

    fn raw_add(&self, table: &mut Table, witness: Option<(Fe, Fe, Fe)>) -> (cells: (
        Cell,
        Cell,
        Cell,
    )) {
        let row_index = table.rows.len();
        let (l, r, o) = match witness {
            Some((a, b, c)) => (Some(a), Some(b), Some(c)),
            None => (None, None, None),
        };
        let row = Row {
            l,
            r,
            o,
            sl: Fe { v: 1 },
            sr: Fe { v: 1 },
            sm: Fe { v: 0 },
            so: Fe { v: MODULUS - 1 },
        };
        table.rows.push(row);
        proof {
            if let Some((a, b, c)) = witness {
                lemma_add_gate(a.v as int, b.v as int, c.v as int);
            }
        }
        (
            Cell { wire: Wire::L, row: row_index },
            Cell { wire: Wire::R, row: row_index },
            Cell { wire: Wire::O, row: row_index },
        )
    }

    fn raw_multiply(&self, table: &mut Table, witness: Option<(Fe, Fe, Fe)>) -> (cells: (
        Cell,
        Cell,
        Cell,
    )) {
        let row_index = table.rows.len();
        let (l, r, o) = match witness {
            Some((a, b, c)) => (Some(a), Some(b), Some(c)),
            None => (None, None, None),
        };
        let row = Row {
            l,
            r,
            o,
            sl: Fe { v: 0 },
            sr: Fe { v: 0 },
            sm: Fe { v: 1 },
            so: Fe { v: MODULUS - 1 },
        };
        table.rows.push(row);
        proof {
            if let Some((a, b, c)) = witness {
                lemma_mul_gate(a.v as int, b.v as int, c.v as int);
            }
        }
        (
            Cell { wire: Wire::L, row: row_index },
            Cell { wire: Wire::R, row: row_index },
            Cell { wire: Wire::O, row: row_index },
        )
    }

    fn copy(&self, table: &mut Table, a: Cell, b: Cell) -> (r: Result<(), ComposerError>) {
        if wire_enabled(self.config, a.wire) && wire_enabled(self.config, b.wire) {
            table.copies.push((a, b));
            Ok(())
        } else {
            Err(ComposerError::EqualityNotEnabled)
        }
    }

    fn expose_public(&self, table: &mut Table, cell: Cell, row: usize) -> (r: Result<
        (),
        ComposerError,
    >) {
        if wire_enabled(self.config, cell.wire) && self.config.eq_instance {
            table.exposures.push((cell, row));
            Ok(())
        } else {
            Err(ComposerError::EqualityNotEnabled)
        }
    }
}

/// The two rows agree on all four selector values.
pub open spec fn selectors_eq(r1: Row, r2: Row) -> bool {
    r1.sl == r2.sl && r1.sr == r2.sr && r1.sm == r2.sm && r1.so == r2.so
}

/// The two tables agree on everything except the advice values: row
/// count, selectors, copy constraints and exposures.
pub open spec fn same_shape(t1: Table, t2: Table) -> bool {
    &&& t1.rows.len() == t2.rows.len()
    &&& (forall|i: int|
        0 <= i < t1.rows.len() ==> selectors_eq(#[trigger] t1.rows@[i], t2.rows@[i]))
    &&& t1.copies@ == t2.copies@
    &&& t1.exposures@ == t2.exposures@
}

/// Law: the value a witness producer returns never influences which rows
/// and selectors are laid down.  Two `raw_add` calls on same-shaped
/// tables, with any two witnesses, leave same-shaped tables; the row
/// counts being equal, the returned cells coincide as well.
pub proof fn lemma_raw_add_shape_independent(
    t1: Table,
    u1: Table,
    w1: Option<(Fe, Fe, Fe)>,
    t2: Table,
    u2: Table,
    w2: Option<(Fe, Fe, Fe)>,
)
    requires
        same_shape(t1, t2),
        raw_add_post(t1, u1, w1),
        raw_add_post(t2, u2, w2),
    ensures
        same_shape(u1, u2),
{
    assert forall|i: int| 0 <= i < u1.rows.len() implies selectors_eq(
        #[trigger] u1.rows@[i],
        u2.rows@[i],
    ) by {
        if i < t1.rows.len() {
            assert(u1.rows@[i] == t1.rows@[i]);
            assert(u2.rows@[i] == t2.rows@[i]);
        } else {
            assert(u1.rows@[i] == add_row(w1));
            assert(u2.rows@[i] == add_row(w2));
        }
    }
}

/// Law: as `lemma_raw_add_shape_independent`, for `raw_multiply`.
pub proof fn lemma_raw_multiply_shape_independent(
    t1: Table,
    u1: Table,
    w1: Option<(Fe, Fe, Fe)>,
    t2: Table,
    u2: Table,
    w2: Option<(Fe, Fe, Fe)>,
)
    requires
        same_shape(t1, t2),
        raw_mul_post(t1, u1, w1),
        raw_mul_post(t2, u2, w2),
    ensures
        same_shape(u1, u2),
{
    assert forall|i: int| 0 <= i < u1.rows.len() implies selectors_eq(
        #[trigger] u1.rows@[i],
        u2.rows@[i],
    ) by {
        if i < t1.rows.len() {
            assert(u1.rows@[i] == t1.rows@[i]);
            assert(u2.rows@[i] == t2.rows@[i]);
        } else {
            assert(u1.rows@[i] == mul_row(w1));
            assert(u2.rows@[i] == mul_row(w2));
        }
    }
}

/// Law: `copy` on two same-shaped tables, with the same pair of cells,
/// leaves same-shaped tables: the witness pass changes no constraint.
pub proof fn lemma_copy_shape_independent(t1: Table, u1: Table, t2: Table, u2: Table, a: Cell, b: Cell)
    requires
        same_shape(t1, t2),
        copy_post(t1, u1, a, b),
        copy_post(t2, u2, a, b),
    ensures
        same_shape(u1, u2),
{
}

/// Law: `expose_public` on two same-shaped tables, with the same cell
/// and instance row, leaves same-shaped tables.
pub proof fn lemma_expose_shape_independent(
    t1: Table,
    u1: Table,
    t2: Table,
    u2: Table,
    cell: Cell,
    row: usize,
)
    requires
        same_shape(t1, t2),
        expose_post(t1, u1, cell, row),
        expose_post(t2, u2, cell, row),
    ensures
        same_shape(u1, u2),
{
}

} // verus!
