use vstd::prelude::*;

use crate::event::DebuggerEvent;
use crate::state::registers::Register;
use crate::state::stack::StackTrace;
use crate::state::value::{RelativeAddress, all_zero};
use crate::windbg::control::DebuggerExecutionStatus;

verus! {

/// A register is reported in a state change when its value is not all zero.
pub open spec fn is_reported(reg: Register) -> bool {
    !all_zero(reg.value@)
}

/// A register is reported exactly when some byte of its value, at any
/// position, is non-zero.
pub proof fn lemma_reported_iff_some_byte_nonzero(reg: Register)
    ensures
        is_reported(reg) <==> exists|i: int| 0 <= i < reg.value@.len() && reg.value@[i] != 0,
{
}

/// Reporting keeps order: no register is reported from an empty list, and a
/// register added at the end is reported after the others exactly when it is
/// reported itself.
pub proof fn lemma_reported_registers_push(regs: Seq<Register>, reg: Register)
    ensures
        reported_registers(Seq::<Register>::empty()) == Seq::<Register>::empty(),
        reported_registers(regs.push(reg)) == if is_reported(reg) {
            reported_registers(regs).push(reg)
        } else {
            reported_registers(regs)
        },
{
    reveal(Seq::filter);
    assert(regs.push(reg).drop_last() =~= regs);
    assert(reported_registers(Seq::<Register>::empty()) =~= Seq::<Register>::empty());
}

/// The registers of `regs` that a state change reports, in their order.
pub open spec fn reported_registers(regs: Seq<Register>) -> Seq<Register> {
    regs.filter(|r: Register| is_reported(r))
}

/// The registers of `registers` whose values are not all zero, in order.
pub fn nonzero_registers(registers: Vec<Register>) -> (kept: Vec<Register>)
    ensures
        kept@ == reported_registers(registers@),
{
    let ghost all = registers@;
    let mut kept: Vec<Register> = Vec::new();
    for reg in it: registers.into_iter()
        invariant
            it.seq() == all,
            kept@ == reported_registers(all.take(it.index() as int)),
    {
        let ghost i = it.index();
        proof {
            reveal(Seq::filter);
            assert(all.take(i + 1).drop_last() =~= all.take(i as int));
            assert(all.take(i + 1).last() == reg);
        }
        if !reg.value.is_zeroed() {
            kept.push(reg);
        }
    }
    proof {
        assert(all.take(all.len() as int) =~= all);
    }
    kept
}

/// A register is reported exactly when its value is not all zero: every
/// reported register comes from the given ones and is non-zero, and every
/// non-zero given register is reported.
pub proof fn lemma_reported_registers(regs: Seq<Register>)
    ensures
        reported_registers(regs).len() <= regs.len(),
        forall|i: int|
            0 <= i < reported_registers(regs).len() ==> is_reported(
                #[trigger] reported_registers(regs)[i],
            ) && regs.contains(reported_registers(regs)[i]),
        forall|i: int|
            0 <= i < regs.len() && is_reported(#[trigger] regs[i]) ==> reported_registers(
                regs,
            ).contains(regs[i]),
{
    broadcast use vstd::seq_lib::group_filter_ensures;

    let pred = |r: Register| is_reported(r);
    assert forall|i: int|
        0 <= i < reported_registers(regs).len() implies is_reported(
        #[trigger] reported_registers(regs)[i],
    ) && regs.contains(reported_registers(regs)[i]) by {
        let kept = regs.filter(pred);
        regs.lemma_filter_pred(pred, i);
        assert(kept.contains(kept[i]));
        regs.lemma_filter_contains_rev(pred, kept[i]);
    }
    assert forall|i: int| 0 <= i < regs.len() && is_reported(#[trigger] regs[i]) implies reported_registers(
        regs,
    ).contains(regs[i]) by {
        regs.lemma_filter_contains(pred, i);
    }
    regs.lemma_filter_len(pred);
}

/// The event for a state change when the debuggee's status is `status`: a
/// running debuggee is reported as continued, and any other status calls for
/// a snapshot of the stopped debuggee (`None`).
pub fn continued_event(status: DebuggerExecutionStatus) -> (e: Option<DebuggerEvent>)
    ensures
        e is Some <==> status == DebuggerExecutionStatus::Continue,
        e matches Some(ev) ==> ev is DebuggeeContinued,
{
    if status == DebuggerExecutionStatus::Continue {
        Some(DebuggerEvent::DebuggeeContinued)
    } else {
        None
    }
}

/// The event for a stopped debuggee: its position, the registers that hold a
/// non-zero value, and its stack.
pub fn stopped_event(
    instruction_offset: RelativeAddress,
    registers: Vec<Register>,
    stack_trace: StackTrace,
) -> (e: DebuggerEvent)
    ensures
        e matches DebuggerEvent::DebuggeeStateChange {
            instruction_offset: io,
            registers: regs,
            stack_trace: st,
        } && io == instruction_offset && regs@ == reported_registers(registers@) && st
            == stack_trace,
{
    let kept = nonzero_registers(registers);
    DebuggerEvent::DebuggeeStateChange { instruction_offset, registers: kept, stack_trace }
}

} // verus!
