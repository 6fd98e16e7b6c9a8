//! Tests of this layer on the model table: the custom-gate identity of the
//! rows the composer lays down, the copy and exposure constraints, and
//! the shape-stability of the two synthesis passes.

use tutorial_gate::composer::{ComposerError, TutorialChip, TutorialComposer};
use tutorial_gate::field::{fe_add, fe_from, fe_mul, fe_neg, Fe, MODULUS};
use tutorial_gate::layout::{configure, TutorialConfig};
use tutorial_gate::table::{row_gate_value, Table};

fn fe(v: u64) -> Fe {
    fe_from(v)
}

#[test]
fn field_add_wraps_at_modulus() {
    assert_eq!(fe_add(fe(7), fe(8)).v, 15);
    assert_eq!(fe_add(Fe { v: MODULUS - 1 }, fe(1)).v, 0);
    assert_eq!(fe_add(Fe { v: MODULUS - 1 }, Fe { v: MODULUS - 1 }).v, MODULUS - 2);
}

#[test]
fn field_mul_exact_values() {
    assert_eq!(fe_mul(fe(3), fe(4)).v, 12);
    assert_eq!(fe_mul(Fe { v: MODULUS - 1 }, fe(2)).v, MODULUS - 2);
    assert_eq!(fe_mul(fe(0), Fe { v: MODULUS - 1 }).v, 0);
}

#[test]
fn field_neg_exact_values() {
    assert_eq!(fe_neg(fe(0)).v, 0);
    assert_eq!(fe_neg(fe(5)).v, MODULUS - 5);
}

#[test]
fn field_from_reduces() {
    assert_eq!(fe_from(MODULUS).v, 0);
    assert_eq!(fe_from(MODULUS + 4).v, 4);
    assert_eq!(fe_from(MODULUS - 1).v, MODULUS - 1);
}

#[test]
fn add_gate_row_satisfies_identity() {
    let chip = TutorialChip::new(configure());
    let mut t = Table::new();

    chip.raw_add(&mut t, Some((fe(2), fe(3), fe(5))));
    assert_eq!(row_gate_value(&t.rows[0]).unwrap().v, 0);

    let a = Fe { v: MODULUS - 1 };
    let c = fe_add(a, fe(5));
    assert_eq!(c.v, 4);
    chip.raw_add(&mut t, Some((a, fe(5), c)));
    assert_eq!(row_gate_value(&t.rows[1]).unwrap().v, 0);

    chip.raw_add(&mut t, Some((fe(2), fe(3), fe(6))));
    assert_ne!(row_gate_value(&t.rows[2]).unwrap().v, 0);
}

#[test]
fn multiply_gate_row_satisfies_identity() {
    let chip = TutorialChip::new(configure());
    let mut t = Table::new();

    chip.raw_multiply(&mut t, Some((fe(3), fe(4), fe(12))));
    assert_eq!(row_gate_value(&t.rows[0]).unwrap().v, 0);

    let a = Fe { v: MODULUS - 1 };
    let c = fe_mul(a, fe(2));
    assert_eq!(c.v, MODULUS - 2);
    chip.raw_multiply(&mut t, Some((a, fe(2), c)));
    assert_eq!(row_gate_value(&t.rows[1]).unwrap().v, 0);

    chip.raw_multiply(&mut t, Some((fe(3), fe(4), fe(13))));
    assert_ne!(row_gate_value(&t.rows[2]).unwrap().v, 0);
}

#[test]
fn copy_of_unequal_cells_is_unsatisfiable() {
    let chip = TutorialChip::new(configure());
    let mut t = Table::new();
    let (_, _, first_out) = chip.raw_add(&mut t, Some((fe(1), fe(1), fe(2))));
    let (second_left, _, _) = chip.raw_add(&mut t, Some((fe(3), fe(4), fe(7))));
    chip.copy(&mut t, first_out, second_left).unwrap();
    // Both rows meet their custom-gate identities; only the copy constraint fails.
    assert_eq!(row_gate_value(&t.rows[0]).unwrap().v, 0);
    assert_eq!(row_gate_value(&t.rows[1]).unwrap().v, 0);
    assert!(!t.check_satisfied(&Vec::new()));
}

#[test]
fn copy_of_equal_cells_is_satisfiable() {
    let chip = TutorialChip::new(configure());
    let mut t = Table::new();
    let (_, _, first_out) = chip.raw_add(&mut t, Some((fe(1), fe(1), fe(2))));
    let (second_left, _, _) = chip.raw_add(&mut t, Some((fe(2), fe(4), fe(6))));
    chip.copy(&mut t, first_out, second_left).unwrap();
    assert!(t.check_satisfied(&Vec::new()));
}

#[test]
fn exposed_cell_pins_public_input() {
    let chip = TutorialChip::new(configure());
    let mut t = Table::new();
    let (_, _, out) = chip.raw_add(&mut t, Some((fe(2), fe(3), fe(5))));
    chip.expose_public(&mut t, out, 0).unwrap();
    assert!(t.check_satisfied(&vec![fe(5)]));
    assert!(!t.check_satisfied(&vec![fe(6)]));
    // An instance column too short to reach the exposed row fails too.
    assert!(!t.check_satisfied(&Vec::new()));
}

#[test]
fn copy_requires_equality_enabled() {
    let config = TutorialConfig { eq_l: true, eq_r: true, eq_o: false, eq_instance: true };
    let chip = TutorialChip::new(config);
    let mut t = Table::new();
    let (left, _, out) = chip.raw_add(&mut t, Some((fe(1), fe(1), fe(2))));
    assert_eq!(chip.copy(&mut t, left, out), Err(ComposerError::EqualityNotEnabled));
    assert_eq!(t.copies.len(), 0);
    assert_eq!(
        chip.expose_public(&mut t, out, 0),
        Err(ComposerError::EqualityNotEnabled)
    );
    assert_eq!(t.exposures.len(), 0);
    // On an equality-enabled wire the same calls go through.
    assert_eq!(chip.copy(&mut t, left, left), Ok(()));
    assert_eq!(chip.expose_public(&mut t, left, 0), Ok(()));
}

#[test]
fn expose_requires_instance_equality_enabled() {
    let config = TutorialConfig { eq_l: true, eq_r: true, eq_o: true, eq_instance: false };
    let chip = TutorialChip::new(config);
    let mut t = Table::new();
    let (_, _, out) = chip.raw_add(&mut t, Some((fe(1), fe(1), fe(2))));
    assert_eq!(
        chip.expose_public(&mut t, out, 0),
        Err(ComposerError::EqualityNotEnabled)
    );
    assert_eq!(t.exposures.len(), 0);
}

#[test]
fn product_of_sum_circuit_satisfied_end_to_end() {
    // (a + b) * c with a = 2, b = 3, c = 4 and public output d = 20.
    let chip = TutorialChip::new(configure());
    let mut t = Table::new();
    let (_, _, sum_out) = chip.raw_add(&mut t, Some((fe(2), fe(3), fe(5))));
    let (prod_left, _, prod_out) = chip.raw_multiply(&mut t, Some((fe(5), fe(4), fe(20))));
    chip.copy(&mut t, sum_out, prod_left).unwrap();
    chip.expose_public(&mut t, prod_out, 0).unwrap();
    assert!(t.check_satisfied(&vec![fe(20)]));
    assert!(!t.check_satisfied(&vec![fe(21)]));
}

#[test]
fn producer_value_never_changes_shape() {
    // One witness-less pass and one witness-full pass over the same
    // sequence of composer calls.
    let chip = TutorialChip::new(configure());

    let mut bare = Table::new();
    let (_, _, bare_sum) = chip.raw_add(&mut bare, None);
    let (bare_left, _, bare_out) = chip.raw_multiply(&mut bare, None);
    chip.copy(&mut bare, bare_sum, bare_left).unwrap();
    chip.expose_public(&mut bare, bare_out, 0).unwrap();

    let mut full = Table::new();
    let (_, _, full_sum) = chip.raw_add(&mut full, Some((fe(2), fe(3), fe(5))));
    let (full_left, _, full_out) = chip.raw_multiply(&mut full, Some((fe(5), fe(4), fe(20))));
    chip.copy(&mut full, full_sum, full_left).unwrap();
    chip.expose_public(&mut full, full_out, 0).unwrap();

    // The same cells come back...
    assert_eq!(bare_sum, full_sum);
    assert_eq!(bare_left, full_left);
    assert_eq!(bare_out, full_out);
    // ...the same rows and selectors are set...
    assert_eq!(bare.rows.len(), full.rows.len());
    for (b, f) in bare.rows.iter().zip(full.rows.iter()) {
        assert_eq!(b.sl, f.sl);
        assert_eq!(b.sr, f.sr);
        assert_eq!(b.sm, f.sm);
        assert_eq!(b.so, f.so);
    }
    assert_eq!(bare.copies, full.copies);
    assert_eq!(bare.exposures, full.exposures);
    // ...and only the advice values differ between the passes.
    for b in bare.rows.iter() {
        assert!(b.l.is_none() && b.r.is_none() && b.o.is_none());
    }
    for f in full.rows.iter() {
        assert!(f.l.is_some() && f.r.is_some() && f.o.is_some());
    }
}
