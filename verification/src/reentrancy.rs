//! The reentrancy detector. During a single traversal of one function it
//! retains every visited block item, the blocks holding recognized
//! value-transfer calls, and the place the first recognized balance-read call
//! stored into. `check` then decides whether the tracked balance is written
//! (by assignment, or read by an overflow-checked subtraction) in a block
//! strictly after the last transfer block — the classic
//! checks-effects-interactions violation.

use vstd::prelude::*;
use crate::cfg::{
    AssertKind, BasicBlockId, BlockStatement, Expr, Operand, Place, SourceSpan, Statement,
    Terminator, same_location, same_location_spec,
};
use crate::detector::Detector;
use crate::signatures::SignatureTable;

verus! {

/// The largest block id among the recorded transfer entries, or -1 when none
/// was recorded. Block ids order the recorded transfers deterministically;
/// the maximum stands for the last transfer in program order.
pub open spec fn max_key(s: Seq<(BasicBlockId, String)>) -> int
    decreases s.len(),
{
    if s.len() == 0 {
        -1
    } else if s.last().0 as int >= max_key(s.drop_last()) {
        s.last().0 as int
    } else {
        max_key(s.drop_last())
    }
}

/// `max_key` bounds every recorded key and, when any entry exists, is itself
/// one of the keys.
pub proof fn lemma_max_key_bounds(s: Seq<(BasicBlockId, String)>)
    ensures
        forall|i: int| 0 <= i < s.len() ==> (#[trigger] s[i]).0 <= max_key(s),
        s.len() > 0 ==> exists|i: int| 0 <= i < s.len() && (#[trigger] s[i]).0 == max_key(s),
    decreases s.len(),
{
    if s.len() > 0 {
        lemma_max_key_bounds(s.drop_last());
        assert forall|i: int| 0 <= i < s.len() implies (#[trigger] s[i]).0 <= max_key(s) by {
            if i < s.len() - 1 {
                assert(s.drop_last()[i] == s[i]);
            }
        }
        if s.last().0 as int >= max_key(s.drop_last()) {
            assert(s[s.len() - 1].0 == max_key(s));
        } else {
            let i = choose|i: int|
                0 <= i < s.drop_last().len() && (#[trigger] s.drop_last()[i]).0 == max_key(
                    s.drop_last(),
                );
            assert(s[i].0 == max_key(s));
        }
    }
}

/// The callee name most recently recorded for block `b`, if any.
pub open spec fn name_at(s: Seq<(BasicBlockId, String)>, b: BasicBlockId) -> Option<Seq<char>>
    decreases s.len(),
{
    if s.len() == 0 {
        None
    } else if s.last().0 == b {
        Some(s.last().1@)
    } else {
        name_at(s.drop_last(), b)
    }
}

/// Holds the per-function state for the reentrancy analysis; created fresh
/// for each analyzed function and discarded after `check`.
pub struct ReentrancyChecker {
    /// Every observed statement or terminator, tagged with the id of the
    /// basic block it belongs to, in observation order.
    pub block_statements: Vec<(BasicBlockId, BlockStatement)>,
    /// One entry per observed value-transfer call, with the matched callee
    /// name; a block's current name is its latest entry.
    pub function_lamport_transfer: Vec<(BasicBlockId, String)>,
    /// The place believed to hold the user's balance, set by the first
    /// recognized balance-read call and never cleared afterwards.
    pub temporary_variable_for_balance: Option<Place>,
    /// Start of the span bounding the reentrancy evidence.
    pub starting_reentrancy_span: u32,
    /// End of the span bounding the reentrancy evidence.
    pub ending_reentrancy_span: u32,
}

impl ReentrancyChecker {
    /// Whether a statement writes the tracked balance: it assigns to a place
    /// with the same base.
    pub open spec fn statement_hits(self, s: Statement) -> bool {
        match (self.temporary_variable_for_balance, s) {
            (Some(bal), Statement::Assign(dest, _)) => same_location_spec(dest, bal),
            _ => false,
        }
    }

    /// Whether a terminator reads the tracked balance through an
    /// overflow-checked subtraction guard.
    pub open spec fn terminator_hits(self, t: Terminator) -> bool {
        match (self.temporary_variable_for_balance, t) {
            (
                Some(bal),
                Terminator::Assert { kind: AssertKind::OverflowingSubtract(Operand::Copy(p)), .. },
            ) => same_location_spec(p, bal),
            _ => false,
        }
    }

    /// Whether a retained block item is evidence of a post-transfer balance
    /// update.
    pub open spec fn item_hits(self, item: BlockStatement) -> bool {
        match item {
            BlockStatement::Statement(s) => self.statement_hits(s),
            BlockStatement::TerminatorKind(t) => self.terminator_hits(t),
        }
    }

    /// Whether some block recorded a value-transfer call at id `b`.
    pub open spec fn has_transfer_in(self, b: BasicBlockId) -> bool {
        exists|i: int|
            0 <= i < self.function_lamport_transfer@.len() && (#[trigger] self.function_lamport_transfer@[i]).0 == b
    }

    /// The id of the last (maximum-id) block with a recorded transfer.
    pub open spec fn last_transfer_block(self) -> int {
        max_key(self.function_lamport_transfer@)
    }

    /// Whether some retained item in a block strictly after `t` is evidence.
    pub open spec fn evidence_after(self, t: int) -> bool {
        exists|i: int|
            0 <= i < self.block_statements@.len() && (#[trigger] self.block_statements@[i]).0 > t
                && self.item_hits(self.block_statements@[i].1)
    }

    /// The detector decision: a transfer was observed, and the tracked
    /// balance is updated in a block strictly after the last transfer block.
    pub open spec fn is_reentrant(self) -> bool {
        self.function_lamport_transfer@.len() > 0 && self.evidence_after(self.last_transfer_block())
    }

    /// A fresh detector for one function: nothing observed yet.
    pub fn new() -> (c: ReentrancyChecker)
        ensures
            c.block_statements@.len() == 0,
            c.function_lamport_transfer@.len() == 0,
            c.temporary_variable_for_balance is None,
            c.starting_reentrancy_span == 0,
            c.ending_reentrancy_span == 0,
            !c.is_reentrant(),
    {
        ReentrancyChecker {
            block_statements: Vec::new(),
            function_lamport_transfer: Vec::new(),
            temporary_variable_for_balance: None,
            starting_reentrancy_span: 0,
            ending_reentrancy_span: 0,
        }
    }

    /// Retains one visited block item, whatever its kind: the later scan
    /// needs the entire content of every block, not just matched calls.
    pub fn observe_block_content(&mut self, block: BasicBlockId, item: BlockStatement)
        ensures
            final(self).block_statements@ == old(self).block_statements@.push((block, item)),
            final(self).function_lamport_transfer@ == old(self).function_lamport_transfer@,
            final(self).temporary_variable_for_balance == old(self).temporary_variable_for_balance,
            final(self).starting_reentrancy_span == old(self).starting_reentrancy_span,
            final(self).ending_reentrancy_span == old(self).ending_reentrancy_span,
    {
        self.block_statements.push((block, item));
    }

    /// Classifies one observed call. A balance-read match binds the tracked
    /// balance to the call's destination, but only while no balance is
    /// tracked yet: first match wins, later balance reads are ignored. A
    /// value-transfer match records the callee under the block's id; a later
    /// transfer in the same block replaces the recorded name, the key stays.
    pub fn observe_call(
        &mut self,
        block: BasicBlockId,
        callee: &String,
        destination: Option<Place>,
        balance_read_sigs: &SignatureTable,
        value_transfer_sigs: &SignatureTable,
    )
        ensures
            final(self).temporary_variable_for_balance == (
            if old(self).temporary_variable_for_balance is None && balance_read_sigs.matches(
                callee@,
            ) {
                destination
            } else {
                old(self).temporary_variable_for_balance
            }),
            value_transfer_sigs.matches(callee@) ==> final(self).function_lamport_transfer@ == old(
                self,
            ).function_lamport_transfer@.push((block, *callee)),
            !value_transfer_sigs.matches(callee@) ==> final(self).function_lamport_transfer@ == old(
                self,
            ).function_lamport_transfer@,
            final(self).block_statements@ == old(self).block_statements@,
            final(self).starting_reentrancy_span == old(self).starting_reentrancy_span,
            final(self).ending_reentrancy_span == old(self).ending_reentrancy_span,
            value_transfer_sigs.matches(callee@) ==> final(self).has_transfer_in(block)
                && name_at(final(self).function_lamport_transfer@, block) == Some(callee@),
    {
        if self.temporary_variable_for_balance.is_none() && balance_read_sigs.contains(callee) {
            self.temporary_variable_for_balance = destination;
        }
        if value_transfer_sigs.contains(callee) {
            self.function_lamport_transfer.push((block, callee.clone()));
            proof {
                let s = self.function_lamport_transfer@;
                assert(s[s.len() - 1].0 == block);
            }
        }
    }

    /// Whether `statement` assigns to the tracked balance place.
    fn visit_reentrancy_statement(&self, statement: &Statement) -> (r: bool)
        ensures
            r == self.statement_hits(*statement),
    {
        match statement {
            Statement::Assign(dest, _) => match &self.temporary_variable_for_balance {
                Some(bal) => same_location(dest, bal),
                None => false,
            },
            _ => false,
        }
    }

    /// Whether `terminator` is an overflow-checked subtraction whose left
    /// operand copies the tracked balance place.
    fn visit_reentrancy_terminator(&self, terminator: &Terminator) -> (r: bool)
        ensures
            r == self.terminator_hits(*terminator),
    {
        match terminator {
            Terminator::Assert { kind: AssertKind::OverflowingSubtract(Operand::Copy(p)), .. } => {
                match &self.temporary_variable_for_balance {
                    Some(bal) => same_location(p, bal),
                    None => false,
                }
            },
            _ => false,
        }
    }
}

/// No transfer, no finding: whatever was retained in the blocks and
/// whatever balance is tracked, a function without a recorded value-transfer
/// call is never reported as reentrant.
pub proof fn lemma_no_transfer_no_finding(c: ReentrancyChecker)
    requires
        c.function_lamport_transfer@.len() == 0,
    ensures
        !c.is_reentrant(),
{
}

/// Order-sensitive, positive direction: when `t` is the largest block id
/// with a recorded transfer and some retained item in a block with a larger
/// id assigns to the tracked balance place, the detector reports reentrancy.
pub proof fn lemma_order_sensitive_positive(
    c: ReentrancyChecker,
    t: BasicBlockId,
    i: int,
    dest: Place,
    src: Expr,
    bal: Place,
)
    requires
        c.has_transfer_in(t),
        forall|b: BasicBlockId| #[trigger] c.has_transfer_in(b) ==> b <= t,
        0 <= i < c.block_statements@.len(),
        c.block_statements@[i].0 > t,
        c.block_statements@[i].1 == BlockStatement::Statement(Statement::Assign(dest, src)),
        c.temporary_variable_for_balance == Some(bal),
        same_location_spec(dest, bal),
    ensures
        c.is_reentrant(),
{
    lemma_last_transfer_is_max(c, t);
    assert(c.item_hits(c.block_statements@[i].1));
    assert(c.block_statements@[i].0 > c.last_transfer_block());
}

/// Order-sensitive, negative direction: when every retained item in a block
/// after the last transfer block `t` fails the evidence test — however the
/// balance is mutated at or before `t` — the detector stays quiet.
pub proof fn lemma_order_sensitive_negative(c: ReentrancyChecker, t: BasicBlockId)
    requires
        c.has_transfer_in(t),
        forall|b: BasicBlockId| #[trigger] c.has_transfer_in(b) ==> b <= t,
        forall|i: int|
            0 <= i < c.block_statements@.len() && (#[trigger] c.block_statements@[i]).0 > t
                ==> !c.item_hits(c.block_statements@[i].1),
    ensures
        !c.is_reentrant(),
{
    lemma_last_transfer_is_max(c, t);
    if c.evidence_after(c.last_transfer_block()) {
        let i = choose|i: int|
            0 <= i < c.block_statements@.len() && (#[trigger] c.block_statements@[i]).0
                > c.last_transfer_block() && c.item_hits(c.block_statements@[i].1);
        assert(!c.item_hits(c.block_statements@[i].1));
    }
}

/// With no balance tracked, nothing counts as evidence, so the detector
/// stays quiet whatever was recorded.
pub proof fn lemma_untracked_balance_no_finding(c: ReentrancyChecker)
    requires
        c.temporary_variable_for_balance is None,
    ensures
        !c.is_reentrant(),
{
    if c.evidence_after(c.last_transfer_block()) {
        let i = choose|i: int|
            0 <= i < c.block_statements@.len() && (#[trigger] c.block_statements@[i]).0
                > c.last_transfer_block() && c.item_hits(c.block_statements@[i].1);
        assert(!c.item_hits(c.block_statements@[i].1));
    }
}

/// When `t` is a recorded transfer block and bounds every recorded transfer
/// block, `t` is exactly the last transfer block.
pub proof fn lemma_last_transfer_is_max(c: ReentrancyChecker, t: BasicBlockId)
    requires
        c.has_transfer_in(t),
        forall|b: BasicBlockId| #[trigger] c.has_transfer_in(b) ==> b <= t,
    ensures
        c.last_transfer_block() == t,
        c.function_lamport_transfer@.len() > 0,
{
    let s = c.function_lamport_transfer@;
    lemma_max_key_bounds(s);
    let i = choose|i: int| 0 <= i < s.len() && (#[trigger] s[i]).0 == t;
    assert(s[i].0 <= max_key(s));
    let j = choose|j: int| 0 <= j < s.len() && (#[trigger] s[j]).0 == max_key(s);
    assert(c.has_transfer_in(s[j].0));
}

impl Detector for ReentrancyChecker {
    open spec fn triggered(&self) -> bool {
        self.is_reentrant()
    }

    open spec fn finding_span(&self) -> SourceSpan {
        SourceSpan { lo: self.starting_reentrancy_span, hi: self.ending_reentrancy_span }
    }

    /// Decides reentrancy: with no transfer recorded the answer is no;
    /// otherwise every retained item of every block strictly after the last
    /// transfer block is scanned for a write to the tracked balance.
    fn check(&self) -> (r: bool) {
        if self.function_lamport_transfer.len() == 0 {
            return false;
        }
        let transfers = Ghost(self.function_lamport_transfer@);
        let first = &self.function_lamport_transfer[0];
        let mut last_bb: BasicBlockId = first.0;
        let mut k: usize = 1;
        proof {
            assert(transfers@.take(1).drop_last() =~= Seq::<(BasicBlockId, String)>::empty());
            assert(transfers@.take(1).last() == transfers@[0]);
            assert(max_key(Seq::<(BasicBlockId, String)>::empty()) == -1);
            assert(max_key(transfers@.take(1)) == transfers@[0].0 as int);
        }
        while k < self.function_lamport_transfer.len()
            invariant
                1 <= k <= transfers@.len(),
                transfers@ == self.function_lamport_transfer@,
                last_bb as int == max_key(transfers@.take(k as int)),
            decreases transfers@.len() - k,
        {
            let entry = &self.function_lamport_transfer[k];
            proof {
                assert(transfers@.take(k as int + 1).drop_last() =~= transfers@.take(k as int));
                assert(transfers@.take(k as int + 1).last() == transfers@[k as int]);
            }
            if entry.0 > last_bb {
                last_bb = entry.0;
            }
            k += 1;
        }
        proof {
            assert(transfers@.take(transfers@.len() as int) =~= transfers@);
        }
        let mut i: usize = 0;
        while i < self.block_statements.len()
            invariant
                0 <= i <= self.block_statements@.len(),
                last_bb as int == self.last_transfer_block(),
                forall|j: int|
                    0 <= j < i && (#[trigger] self.block_statements@[j]).0 > last_bb
                        ==> !self.item_hits(self.block_statements@[j].1),
            decreases self.block_statements@.len() - i,
        {
            let pair = &self.block_statements[i];
            if pair.0 > last_bb {
                let hit = match &pair.1 {
                    BlockStatement::Statement(s) => self.visit_reentrancy_statement(s),
                    BlockStatement::TerminatorKind(t) => self.visit_reentrancy_terminator(t),
                };
                if hit {
                    proof {
                        assert(self.block_statements@[i as int].0 > self.last_transfer_block()
                            && self.item_hits(self.block_statements@[i as int].1));
                    }
                    return true;
                }
            }
            i += 1;
        }
        proof {
            assert(!self.evidence_after(self.last_transfer_block())) by {
                if self.evidence_after(self.last_transfer_block()) {
                    let j = choose|j: int|
                        0 <= j < self.block_statements@.len() && (#[trigger] self.block_statements@[j]).0
                            > self.last_transfer_block() && self.item_hits(
                            self.block_statements@[j].1,
                        );
                    assert(!self.item_hits(self.block_statements@[j].1));
                }
            }
        }
        false
    }

    fn span(&self) -> (s: SourceSpan) {
        SourceSpan { lo: self.starting_reentrancy_span, hi: self.ending_reentrancy_span }
    }
}

} // verus!
