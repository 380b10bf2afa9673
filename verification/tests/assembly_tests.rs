use fir_lowpass::assembly::assemble_rows;
use fir_lowpass::assembly::ConstraintBlock;
use fir_lowpass::assembly::StackedRow;

fn row(block: ConstraintBlock, row: usize, negated: bool) -> StackedRow {
    StackedRow { block, row, negated }
}

#[test]
fn stacked_order_pairs_each_block_with_its_negation() {
    let r = assemble_rows(2, 3, 1);
    assert_eq!(r.len(), 12);
    let expected = vec![
        row(ConstraintBlock::Passband, 0, false),
        row(ConstraintBlock::Passband, 1, false),
        row(ConstraintBlock::Passband, 0, true),
        row(ConstraintBlock::Passband, 1, true),
        row(ConstraintBlock::Stopband, 0, false),
        row(ConstraintBlock::Stopband, 1, false),
        row(ConstraintBlock::Stopband, 2, false),
        row(ConstraintBlock::Stopband, 0, true),
        row(ConstraintBlock::Stopband, 1, true),
        row(ConstraintBlock::Stopband, 2, true),
        row(ConstraintBlock::Transition, 0, false),
        row(ConstraintBlock::Transition, 0, true),
    ];
    assert_eq!(r, expected);
}

#[test]
fn empty_transition_block_contributes_no_rows() {
    let r = assemble_rows(2, 2, 0);
    assert_eq!(r.len(), 8);
    assert!(r.iter().all(|x| x.block != ConstraintBlock::Transition));
}

#[test]
fn stacked_row_count_doubles_every_block() {
    let r = assemble_rows(11, 72, 7);
    assert_eq!(r.len(), 2 * (11 + 72 + 7));
    let negated = r.iter().filter(|x| x.negated).count();
    assert_eq!(negated, 11 + 72 + 7);
}
