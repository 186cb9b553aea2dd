use contract_errors::cfg::{
    AssertKind, BlockStatement, Expr, Operand, Place, ProjectionElem, SourceSpan, Statement,
    Terminator,
};
use contract_errors::detector::Detector;
use contract_errors::flags::{
    BadrandomnessChecker, NumericalPrecisionErrorChecker, TimeManipulationChecker,
};
use contract_errors::reentrancy::ReentrancyChecker;
use contract_errors::signatures::SignatureTable;

fn place(base: u32) -> Place {
    Place { base, projection: Vec::new() }
}

fn tables() -> (SignatureTable, SignatureTable) {
    let mut balance = SignatureTable::new();
    balance.add(String::from("get_balance"));
    let mut transfer = SignatureTable::new();
    transfer.add(String::from("transfer_lamports"));
    (balance, transfer)
}

fn call_item(callee: &str, destination: Option<Place>) -> BlockStatement {
    BlockStatement::TerminatorKind(Terminator::Call {
        callee: String::from(callee),
        args: Vec::new(),
        destination,
    })
}

fn assign_sub(dest: Place, left: Place, right: Place) -> BlockStatement {
    BlockStatement::Statement(Statement::Assign(
        dest,
        Expr::Sub(Operand::Copy(left), Operand::Copy(right)),
    ))
}

#[test]
fn signature_table_membership() {
    let mut t = SignatureTable::new();
    assert!(!t.contains(&String::from("get_balance")));
    t.add(String::from("get_balance"));
    t.add(String::from("transfer_lamports"));
    assert!(t.contains(&String::from("get_balance")));
    assert!(t.contains(&String::from("transfer_lamports")));
    assert!(!t.contains(&String::from("round")));
}

#[test]
fn fresh_checker_reports_nothing() {
    let c = ReentrancyChecker::new();
    assert!(!c.check());
}

#[test]
fn no_transfer_means_no_finding() {
    // The balance is read and later assigned, but no transfer is recorded.
    let (balance, transfer) = tables();
    let mut c = ReentrancyChecker::new();
    c.observe_block_content(3, call_item("get_balance", Some(place(7))));
    c.observe_call(3, &String::from("get_balance"), Some(place(7)), &balance, &transfer);
    c.observe_block_content(5, assign_sub(place(7), place(7), place(9)));
    assert!(!c.check());
}

#[test]
fn scenario_vulnerable_withdraw() {
    // Balance read in block 3, transfer in block 4, balance decremented in
    // block 6: the canonical checks-effects-interactions violation.
    let (balance, transfer) = tables();
    let mut c = ReentrancyChecker::new();
    c.observe_block_content(3, call_item("get_balance", Some(place(7))));
    c.observe_call(3, &String::from("get_balance"), Some(place(7)), &balance, &transfer);
    c.observe_block_content(4, call_item("transfer_lamports", None));
    c.observe_call(4, &String::from("transfer_lamports"), None, &balance, &transfer);
    c.observe_block_content(6, assign_sub(place(7), place(7), place(9)));
    assert!(c.check());
    // check is pure and idempotent.
    assert!(c.check());
}

#[test]
fn scenario_fixed_withdraw() {
    // Balance read in block 3, decremented in block 4, transfer only in
    // block 6: correct order, no finding.
    let (balance, transfer) = tables();
    let mut c = ReentrancyChecker::new();
    c.observe_block_content(3, call_item("get_balance", Some(place(7))));
    c.observe_call(3, &String::from("get_balance"), Some(place(7)), &balance, &transfer);
    c.observe_block_content(4, assign_sub(place(7), place(7), place(9)));
    c.observe_block_content(6, call_item("transfer_lamports", None));
    c.observe_call(6, &String::from("transfer_lamports"), None, &balance, &transfer);
    assert!(!c.check());
}

#[test]
fn scenario_overflow_assert_variant() {
    // Balance read in block 2, transfer in block 3; block 5 holds only an
    // overflow-checked subtraction reading the tracked place.
    let (balance, transfer) = tables();
    let mut c = ReentrancyChecker::new();
    c.observe_block_content(2, call_item("get_balance", Some(place(11))));
    c.observe_call(2, &String::from("get_balance"), Some(place(11)), &balance, &transfer);
    c.observe_block_content(3, call_item("transfer_lamports", None));
    c.observe_call(3, &String::from("transfer_lamports"), None, &balance, &transfer);
    c.observe_block_content(
        5,
        BlockStatement::TerminatorKind(Terminator::Assert {
            kind: AssertKind::OverflowingSubtract(Operand::Copy(place(11))),
            span: SourceSpan { lo: 120, hi: 140 },
        }),
    );
    assert!(c.check());
}

#[test]
fn scenario_no_balance_tracked() {
    // A transfer is recorded but no balance-read call was ever observed:
    // later assignments to unrelated places are not evidence.
    let (balance, transfer) = tables();
    let mut c = ReentrancyChecker::new();
    c.observe_block_content(3, call_item("transfer_lamports", None));
    c.observe_call(3, &String::from("transfer_lamports"), None, &balance, &transfer);
    c.observe_block_content(5, assign_sub(place(2), place(2), place(9)));
    assert!(!c.check());
}

#[test]
fn evidence_at_or_before_last_transfer_is_ignored() {
    // Assignments in the transfer block itself and before it do not count;
    // only blocks strictly after the last transfer block are scanned.
    let (balance, transfer) = tables();
    let mut c = ReentrancyChecker::new();
    c.observe_block_content(1, call_item("get_balance", Some(place(7))));
    c.observe_call(1, &String::from("get_balance"), Some(place(7)), &balance, &transfer);
    c.observe_block_content(2, assign_sub(place(7), place(7), place(9)));
    c.observe_block_content(4, assign_sub(place(7), place(7), place(9)));
    c.observe_block_content(4, call_item("transfer_lamports", None));
    c.observe_call(4, &String::from("transfer_lamports"), None, &balance, &transfer);
    assert!(!c.check());
}

#[test]
fn last_transfer_block_is_the_maximum_id() {
    // Transfers in blocks 2 and 6, recorded out of that order; evidence in
    // block 4 sits after the first transfer but not after the last one.
    let (balance, transfer) = tables();
    let mut c = ReentrancyChecker::new();
    c.observe_call(0, &String::from("get_balance"), Some(place(7)), &balance, &transfer);
    c.observe_call(6, &String::from("transfer_lamports"), None, &balance, &transfer);
    c.observe_call(2, &String::from("transfer_lamports"), None, &balance, &transfer);
    c.observe_block_content(4, assign_sub(place(7), place(7), place(9)));
    assert!(!c.check());
    // A write in block 7, past the maximum transfer block, flips the answer.
    c.observe_block_content(7, assign_sub(place(7), place(7), place(9)));
    assert!(c.check());
}

#[test]
fn first_balance_read_wins() {
    // Two distinct balance reads before any transfer: the tracked place is
    // the destination of the first one only.
    let (balance, transfer) = tables();
    let mut c = ReentrancyChecker::new();
    c.observe_call(1, &String::from("get_balance"), Some(place(7)), &balance, &transfer);
    c.observe_call(2, &String::from("get_balance"), Some(place(20)), &balance, &transfer);
    assert_eq!(c.temporary_variable_for_balance, Some(place(7)));
    // Writes to the decoy destination are not evidence ...
    c.observe_call(3, &String::from("transfer_lamports"), None, &balance, &transfer);
    c.observe_block_content(5, assign_sub(place(20), place(20), place(9)));
    assert!(!c.check());
    // ... writes to the first destination are.
    c.observe_block_content(6, assign_sub(place(7), place(7), place(9)));
    assert!(c.check());
}

#[test]
fn unrecognized_calls_change_nothing() {
    let (balance, transfer) = tables();
    let mut c = ReentrancyChecker::new();
    c.observe_call(1, &String::from("helper"), Some(place(7)), &balance, &transfer);
    assert_eq!(c.temporary_variable_for_balance, None);
    assert_eq!(c.function_lamport_transfer.len(), 0);
}

#[test]
fn repeated_transfer_in_one_block_keeps_the_key() {
    let (balance, mut transfer) = tables();
    transfer.add(String::from("send_lamports"));
    let mut c = ReentrancyChecker::new();
    c.observe_call(2, &String::from("get_balance"), Some(place(7)), &balance, &transfer);
    c.observe_call(3, &String::from("transfer_lamports"), None, &balance, &transfer);
    c.observe_call(3, &String::from("send_lamports"), None, &balance, &transfer);
    // The block's current name is the latest recorded entry.
    let last = c.function_lamport_transfer.last().unwrap();
    assert_eq!(last.0, 3);
    assert_eq!(last.1, String::from("send_lamports"));
    c.observe_block_content(4, assign_sub(place(7), place(7), place(9)));
    assert!(c.check());
}

#[test]
fn projections_are_ignored_for_place_identity() {
    // The tracked place and the written place share a base but differ in
    // projection: the documented over-approximation still flags them.
    let (balance, transfer) = tables();
    let mut c = ReentrancyChecker::new();
    let read_dest = Place { base: 7, projection: vec![ProjectionElem::Field(0)] };
    c.observe_call(1, &String::from("get_balance"), Some(read_dest), &balance, &transfer);
    c.observe_call(2, &String::from("transfer_lamports"), None, &balance, &transfer);
    let written = Place { base: 7, projection: vec![ProjectionElem::Index(3)] };
    c.observe_block_content(4, assign_sub(written, place(7), place(9)));
    assert!(c.check());
}

#[test]
fn non_matching_items_after_the_transfer_are_not_evidence() {
    // Blocks after the transfer hold plenty of content, but none of it
    // writes the tracked place: no-ops, returns, other assertion kinds, an
    // overflow assertion over a moved or unrelated operand, and assignments
    // to other places.
    let (balance, transfer) = tables();
    let mut c = ReentrancyChecker::new();
    c.observe_call(1, &String::from("get_balance"), Some(place(7)), &balance, &transfer);
    c.observe_call(2, &String::from("transfer_lamports"), None, &balance, &transfer);
    c.observe_block_content(4, BlockStatement::Statement(Statement::Nop));
    c.observe_block_content(4, BlockStatement::TerminatorKind(Terminator::Return));
    c.observe_block_content(
        5,
        BlockStatement::TerminatorKind(Terminator::Assert {
            kind: AssertKind::Other,
            span: SourceSpan { lo: 1, hi: 2 },
        }),
    );
    c.observe_block_content(
        5,
        BlockStatement::TerminatorKind(Terminator::Assert {
            kind: AssertKind::OverflowingSubtract(Operand::Move(place(7))),
            span: SourceSpan { lo: 3, hi: 4 },
        }),
    );
    c.observe_block_content(
        6,
        BlockStatement::TerminatorKind(Terminator::Assert {
            kind: AssertKind::OverflowingSubtract(Operand::Copy(place(8))),
            span: SourceSpan { lo: 5, hi: 6 },
        }),
    );
    c.observe_block_content(
        6,
        BlockStatement::Statement(Statement::Assign(
            place(9),
            Expr::Use(Operand::Constant(17)),
        )),
    );
    assert!(!c.check());
}

#[test]
fn reentrancy_span_reports_the_recorded_bounds() {
    let mut c = ReentrancyChecker::new();
    assert_eq!(c.span(), SourceSpan { lo: 0, hi: 0 });
    c.starting_reentrancy_span = 40;
    c.ending_reentrancy_span = 95;
    assert_eq!(c.span(), SourceSpan { lo: 40, hi: 95 });
}

fn finish<D: Detector>(d: &D) -> (bool, SourceSpan) {
    (d.check(), d.span())
}

#[test]
fn detectors_share_one_interface() {
    // A driver can finish every detector through the shared capability.
    let (balance, transfer) = tables();
    let mut r = ReentrancyChecker::new();
    r.observe_call(1, &String::from("get_balance"), Some(place(7)), &balance, &transfer);
    r.observe_call(2, &String::from("transfer_lamports"), None, &balance, &transfer);
    r.observe_block_content(3, assign_sub(place(7), place(7), place(9)));
    let mut b = BadrandomnessChecker::new();
    b.record(SourceSpan { lo: 8, hi: 12 });
    let t = TimeManipulationChecker::new();
    assert_eq!(finish(&r).0, true);
    assert_eq!(finish(&b), (true, SourceSpan { lo: 8, hi: 12 }));
    assert_eq!(finish(&t).0, false);
}

#[test]
fn bad_randomness_flag_is_exact() {
    let mut c = BadrandomnessChecker::new();
    assert!(!c.check());
    c.record(SourceSpan { lo: 10, hi: 20 });
    assert!(c.check());
    assert_eq!(c.span(), SourceSpan { lo: 10, hi: 20 });
    // Repeat matches keep the flag and the first span.
    c.record(SourceSpan { lo: 30, hi: 40 });
    assert!(c.check());
    assert_eq!(c.span(), SourceSpan { lo: 10, hi: 20 });
}

#[test]
fn time_manipulation_flag_is_exact() {
    let mut c = TimeManipulationChecker::new();
    assert!(!c.check());
    c.record(SourceSpan { lo: 5, hi: 9 });
    assert!(c.check());
    assert_eq!(c.span(), SourceSpan { lo: 5, hi: 9 });
    c.record(SourceSpan { lo: 50, hi: 90 });
    assert_eq!(c.span(), SourceSpan { lo: 5, hi: 9 });
}

#[test]
fn numerical_precision_flag_is_exact() {
    let mut c = NumericalPrecisionErrorChecker::new();
    assert!(!c.check());
    c.record(SourceSpan { lo: 77, hi: 81 });
    assert!(c.check());
    assert_eq!(c.span(), SourceSpan { lo: 77, hi: 81 });
}
