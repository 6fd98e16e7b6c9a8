//! The synthesized table: rows of advice and selector values, the copy
//! constraints and public-input exposures declared on them, and what it
//! means for a witness and a public input to satisfy all of them.

use vstd::prelude::*;
use vstd::arithmetic::div_mod::{lemma_add_mod_noop, lemma_mul_mod_noop_right};
use crate::field::{fe_add, fe_mul, gate_eval, modulus, Fe};
use crate::layout::{Cell, Wire};

verus! {

/// One row of the table.  The advice values are `None` during the
/// witness-less synthesis pass and `Some` during the witness-full pass;
/// the selector values are fixed by the composer operation that laid the
/// row down.
#[derive(Clone, Copy, Debug)]
pub struct Row {
    pub l: Option<Fe>,
    pub r: Option<Fe>,
    pub o: Option<Fe>,
    pub sl: Fe,
    pub sr: Fe,
    pub sm: Fe,
    pub so: Fe,
}

impl Row {
    /// Every value held by the row is a reduced field element.
    pub open spec fn wf(self) -> bool {
        &&& (self.l is Some ==> self.l->0.wf())
        &&& (self.r is Some ==> self.r->0.wf())
        &&& (self.o is Some ==> self.o->0.wf())
        &&& self.sl.wf()
        &&& self.sr.wf()
        &&& self.sm.wf()
        &&& self.so.wf()
    }

    /// All three advice cells of the row carry a witness value.
    pub open spec fn complete(self) -> bool {
        self.l is Some && self.r is Some && self.o is Some
    }

    /// The custom-gate polynomial of the row, on its selector and advice values.
    pub open spec fn eval(self) -> int
        recommends
            self.complete(),
    {
        gate_eval(
            self.sl.v as int,
            self.sr.v as int,
            self.sm.v as int,
            self.so.v as int,
            self.l->0.v as int,
            self.r->0.v as int,
            self.o->0.v as int,
        )
    }

    /// The row meets its custom-gate identity: its advice values are all
    /// assigned and its custom-gate polynomial vanishes on them.
    pub open spec fn satisfied(self) -> bool {
        self.complete() && self.eval() == 0
    }
}

/// Evaluate the custom-gate polynomial of a row, or report that the row is not
/// fully assigned.
pub fn row_gate_value(row: &Row) -> (r: Option<Fe>)
    requires
        row.wf(),
    ensures
        row.complete() ==> r is Some && r->0.wf() && r->0.v == row.eval(),
        !row.complete() ==> r is None,
{
    match (row.l, row.r, row.o) {
        (Some(lv), Some(rv), Some(ov)) => {
            let t1 = fe_mul(row.sl, lv);
            let t2 = fe_mul(row.sr, rv);
            let t3 = fe_mul(row.sm, fe_mul(lv, rv));
            let t4 = fe_mul(row.so, ov);
            let left = fe_add(t1, t2);
            let right = fe_add(t3, t4);
            let total = fe_add(left, right);
            proof {
                let m = modulus();
                let sl = row.sl.v as int;
                let sr = row.sr.v as int;
                let sm = row.sm.v as int;
                let so = row.so.v as int;
                let l = lv.v as int;
                let r_ = rv.v as int;
                let o = ov.v as int;
                lemma_mul_mod_noop_right(sm, l * r_, m);
                lemma_add_mod_noop(sl * l, sr * r_, m);
                lemma_add_mod_noop(sm * (l * r_), so * o, m);
                lemma_add_mod_noop(sl * l + sr * r_, sm * (l * r_) + so * o, m);
            }
            Some(total)
        },
        _ => None,
    }
}

/// The synthesized table: the rows laid down so far, the copy constraints
/// declared between cells, and the cells exposed as public inputs with
/// the instance row each must equal.
#[derive(Debug)]
pub struct Table {
    pub rows: Vec<Row>,
    pub copies: Vec<(Cell, Cell)>,
    pub exposures: Vec<(Cell, usize)>,
}

impl Table {
    /// The cell names a row that the table already holds.
    pub open spec fn cell_in_range(self, c: Cell) -> bool {
        c.row < self.rows.len()
    }

    /// The advice value the table holds at the cell's coordinate.
    pub open spec fn cell_value(self, c: Cell) -> Option<Fe>
        recommends
            self.cell_in_range(c),
    {
        match c.wire {
            Wire::L => self.rows@[c.row as int].l,
            Wire::R => self.rows@[c.row as int].r,
            Wire::O => self.rows@[c.row as int].o,
        }
    }

    /// Every row holds reduced values, and every declared constraint
    /// refers to a row that has been laid down: no forward references.
    pub open spec fn wf(self) -> bool {
        &&& (forall|i: int| 0 <= i < self.rows.len() ==> (#[trigger] self.rows@[i]).wf())
        &&& (forall|i: int|
            0 <= i < self.copies.len() ==> self.cell_in_range((#[trigger] self.copies@[i]).0)
                && self.cell_in_range(self.copies@[i].1))
        &&& (forall|i: int|
            0 <= i < self.exposures.len() ==> self.cell_in_range((#[trigger] self.exposures@[i]).0))
    }

    /// Every row of the table meets its custom-gate identity.
    pub open spec fn gates_satisfied(self) -> bool {
        forall|i: int| 0 <= i < self.rows.len() ==> (#[trigger] self.rows@[i]).satisfied()
    }

    /// Every pair of cells joined by a copy constraint carries one value.
    pub open spec fn copies_satisfied(self) -> bool {
        forall|i: int|
            0 <= i < self.copies.len() ==> self.cell_value((#[trigger] self.copies@[i]).0)
                == self.cell_value(self.copies@[i].1)
    }

    /// Every exposed cell equals the public input at its instance row.
    pub open spec fn exposures_satisfied(self, instance: Seq<Fe>) -> bool {
        forall|i: int|
            0 <= i < self.exposures.len() ==> (#[trigger] self.exposures@[i]).1 < instance.len()
                && self.cell_value(self.exposures@[i].0) == Some(
                instance[self.exposures@[i].1 as int],
            )
    }

    /// The table is satisfied by its witness and the given public input:
    /// all gates vanish, all copy constraints hold, and every exposed
    /// cell matches the instance column.
    pub open spec fn satisfied(self, instance: Seq<Fe>) -> bool {
        self.gates_satisfied() && self.copies_satisfied() && self.exposures_satisfied(instance)
    }

    /// An empty table, as a region open for synthesis.
    pub fn new() -> (t: Table)
        ensures
            t.wf(),
            t.rows@ == Seq::<Row>::empty(),
            t.copies@ == Seq::<(Cell, Cell)>::empty(),
            t.exposures@ == Seq::<(Cell, usize)>::empty(),
    {
        Table { rows: Vec::new(), copies: Vec::new(), exposures: Vec::new() }
    }

    /// Read the advice value at a cell.
    pub fn cell_value_at(&self, c: Cell) -> (r: Option<Fe>)
        requires
            self.cell_in_range(c),
        ensures
            r == self.cell_value(c),
    {
        let row = &self.rows[c.row];
        match c.wire {
            Wire::L => row.l,
            Wire::R => row.r,
            Wire::O => row.o,
        }
    }

    /// Decide whether the table's witness and the given public input
    /// satisfy every gate, copy constraint and exposure of the table.
    pub fn check_satisfied(&self, instance: &Vec<Fe>) -> (ok: bool)
        requires
            self.wf(),
        ensures
            ok == self.satisfied(instance@),
    {
        let mut i: usize = 0;
        while i < self.rows.len()
            invariant
                self.wf(),
                i <= self.rows.len(),
                forall|j: int| 0 <= j < i ==> (#[trigger] self.rows@[j]).satisfied(),
            decreases self.rows.len() - i,
        {
            match row_gate_value(&self.rows[i]) {
                Some(v) => {
                    if v.v != 0 {
                        assert(!self.rows@[i as int].satisfied());
                        return false;
                    }
                },
                None => {
                    assert(!self.rows@[i as int].satisfied());
                    return false;
                },
            }
            i += 1;
        }
        let mut k: usize = 0;
        while k < self.copies.len()
            invariant
                self.wf(),
                self.gates_satisfied(),
                k <= self.copies.len(),
                forall|j: int|
                    0 <= j < k ==> self.cell_value((#[trigger] self.copies@[j]).0)
                        == self.cell_value(self.copies@[j].1),
            decreases self.copies.len() - k,
        {
            let (a, b) = self.copies[k];
            let va = self.cell_value_at(a);
            let vb = self.cell_value_at(b);
            if !opt_fe_eq(va, vb) {
                return false;
            }
            k += 1;
        }
        let mut k: usize = 0;
        while k < self.exposures.len()
            invariant
                self.wf(),
                self.gates_satisfied(),
                self.copies_satisfied(),
                k <= self.exposures.len(),
                forall|j: int|
                    0 <= j < k ==> (#[trigger] self.exposures@[j]).1 < instance@.len()
                        && self.cell_value(self.exposures@[j].0) == Some(
                        instance@[self.exposures@[j].1 as int],
                    ),
            decreases self.exposures.len() - k,
        {
            let (c, row) = self.exposures[k];
            if row >= instance.len() {
                return false;
            }
            let vc = self.cell_value_at(c);
            if !opt_fe_eq(vc, Some(instance[row])) {
                return false;
            }
            k += 1;
        }
        true
    }
}

/// Compare two optional field elements.
fn opt_fe_eq(a: Option<Fe>, b: Option<Fe>) -> (r: bool)
    ensures
        r == (a == b),
{
    match (a, b) {
        (Some(x), Some(y)) => x.v == y.v,
        (None, None) => true,
        _ => false,
    }
}

/// Law: two cells joined by a copy constraint carry equal values in any
/// satisfying assignment.
pub proof fn lemma_copy_binds(t: Table, instance: Seq<Fe>, i: int)
    requires
        0 <= i < t.copies@.len(),
        t.satisfied(instance),
    ensures
        t.cell_value(t.copies@[i].0) == t.cell_value(t.copies@[i].1),
{
}

/// Law: two cells joined by a copy constraint must carry equal values;
/// a table whose witness gives them unequal values is unsatisfiable,
/// whatever public input is supplied.
pub proof fn lemma_copy_constraint_binds(t: Table, instance: Seq<Fe>, i: int)
    requires
        0 <= i < t.copies@.len(),
        t.cell_value(t.copies@[i].0) != t.cell_value(t.copies@[i].1),
    ensures
        !t.satisfied(instance),
{
    assert(!t.copies_satisfied());
}

/// Law: an exposed cell pins the public input: in any satisfying
/// assignment, the instance value at the exposed row exists and equals
/// the cell's value.
pub proof fn lemma_exposure_binds(t: Table, instance: Seq<Fe>, i: int)
    requires
        0 <= i < t.exposures@.len(),
        t.satisfied(instance),
    ensures
        t.exposures@[i].1 < instance.len(),
        t.cell_value(t.exposures@[i].0) == Some(instance[t.exposures@[i].1 as int]),
{
}

/// Law: a public input that differs from an exposed cell's value, or an
/// instance column too short to reach the exposed row, makes the table
/// unsatisfiable.
pub proof fn lemma_exposure_mismatch_unsat(t: Table, instance: Seq<Fe>, i: int)
    requires
        0 <= i < t.exposures@.len(),
        t.exposures@[i].1 >= instance.len() || t.cell_value(t.exposures@[i].0) != Some(
            instance[t.exposures@[i].1 as int],
        ),
    ensures
        !t.satisfied(instance),
{
    assert(!t.exposures_satisfied(instance));
}

} // verus!
