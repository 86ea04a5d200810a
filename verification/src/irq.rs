//! The RISC-V trap-cause encoding and the classification of traps by it.
//!
//! The model is arithmetic: a cause register splits at `2^31` into a quotient,
//! which is its top bit, and a remainder, which is the cause code.
//! [`lemma_model_is_bitwise`] shows that this is the same as shifting and
//! masking, which is how [`dispatch`] computes it. The meaning of each code is
//! one table, [`trap_table`]; [`exception_codes`] and [`interrupt_codes`] say
//! which codes the architecture assigns, and the lemmas below tie the two
//! together.

use vstd::prelude::*;
use crate::{IRQCause, IRQContext, IRQType, PrivilegeMode, IRQ};

verus! {

/// Value of the top bit of the cause register, which marks an interrupt; also
/// the number of cause codes of either kind.
pub const INTERRUPT_BIT: u32 = 0x8000_0000;

/// The bits of the cause register that hold the cause code.
pub const CAUSE_CODE_MASK: u32 = 0x7FFF_FFFF;

/// The kind of trap that a cause register announces: an interrupt when its top
/// bit is set, an exception when it is clear.
pub open spec fn trap_kind(cause: u32) -> IRQType {
    if cause / INTERRUPT_BIT == 0 {
        IRQType::Exception
    } else {
        IRQType::Interrupt
    }
}

/// The cause code that a cause register carries below its top bit.
pub open spec fn cause_code(cause: u32) -> nat {
    (cause % INTERRUPT_BIT) as nat
}

/// The architecture's table: for a kind of trap and a cause code, whether the
/// trap is fatal and what caused it. A pair that the architecture does not
/// assign is `Unknown` and not fatal.
///
/// Access and alignment faults and illegal instructions are fatal: nothing at
/// this level can repair them. Page faults are not, since a fault handler may
/// map the page; environment calls and breakpoints are intended; no interrupt
/// is fatal.
pub open spec fn trap_table(kind: IRQType, code: nat) -> (bool, IRQCause) {
    match kind {
        IRQType::Exception => {
            if code == 0 {
                (true, IRQCause::InstructionAlignment)
            } else if code == 1 {
                (true, IRQCause::InstructionAccess)
            } else if code == 2 {
                (true, IRQCause::IllegalInstruction)
            } else if code == 3 {
                (false, IRQCause::Breakpoint)
            } else if code == 4 {
                (true, IRQCause::LoadAlignment)
            } else if code == 5 {
                (true, IRQCause::LoadAccess)
            } else if code == 6 {
                (true, IRQCause::StoreAlignment)
            } else if code == 7 {
                (true, IRQCause::StoreAccess)
            } else if code == 8 {
                (false, IRQCause::UserEnvironmentCall)
            } else if code == 9 {
                (false, IRQCause::SupervisorEnvironmentCall)
            } else if code == 11 {
                (false, IRQCause::KernelEnvironmentCall)
            } else if code == 12 {
                (false, IRQCause::InstructionPageFault)
            } else if code == 13 {
                (false, IRQCause::LoadPageFault)
            } else if code == 15 {
                (false, IRQCause::StorePageFault)
            } else {
                (false, IRQCause::Unknown)
            }
        },
        IRQType::Interrupt => {
            if code == 0 {
                (false, IRQCause::UserSWI)
            } else if code == 1 {
                (false, IRQCause::SupervisorSWI)
            } else if code == 3 {
                (false, IRQCause::KernelSWI)
            } else if code == 4 {
                (false, IRQCause::UserTimer)
            } else if code == 5 {
                (false, IRQCause::SupervisorTimer)
            } else if code == 7 {
                (false, IRQCause::KernelTimer)
            } else if code == 8 {
                (false, IRQCause::UserInterrupt)
            } else if code == 9 {
                (false, IRQCause::SupervisorInterrupt)
            } else if code == 11 {
                (false, IRQCause::KernelInterrupt)
            } else {
                (false, IRQCause::Unknown)
            }
        },
    }
}

/// The exception codes that the architecture assigns.
pub open spec fn exception_codes() -> Set<nat> {
    set![0, 1, 2, 3, 4, 5, 6, 7, 8, 9, 11, 12, 13, 15]
}

/// The interrupt codes that the architecture assigns.
pub open spec fn interrupt_codes() -> Set<nat> {
    set![0, 1, 3, 4, 5, 7, 8, 9, 11]
}

/// Whether the architecture assigns a meaning to `code` for traps of `kind`.
pub open spec fn is_assigned(kind: IRQType, code: nat) -> bool {
    match kind {
        IRQType::Exception => exception_codes().contains(code),
        IRQType::Interrupt => interrupt_codes().contains(code),
    }
}

/// The causes that are fatal: access faults, alignment faults and illegal
/// instructions.
pub open spec fn is_unrecoverable(cause: IRQCause) -> bool {
    cause is InstructionAlignment || cause is InstructionAccess || cause is IllegalInstruction
        || cause is LoadAlignment || cause is LoadAccess || cause is StoreAlignment
        || cause is StoreAccess
}

/// Classifies a trap: from the raw trap context to the kernel's description.
///
/// Every cause register is accepted. The kind comes from the top bit of the
/// register, the cause and the fatal flag from [`trap_table`] at that kind and
/// the remaining bits; the trap address is passed on as it came, and the
/// privilege mode is always the kernel's, the only level this entry path
/// serves.
pub fn dispatch(context: IRQContext) -> (irq: IRQ)
    ensures
        irq.irq_type == trap_kind(context.cause),
        (irq.fatal, irq.cause) == trap_table(trap_kind(context.cause), cause_code(context.cause)),
        irq.privilege_mode == PrivilegeMode::Kernel,
        irq.pc == context.epc,
{
    proof {
        lemma_model_is_bitwise(context.cause);
    }
    let cause_type = match context.cause >> 31 {
        0 => IRQType::Exception,
        _ => IRQType::Interrupt,
    };
    let (fatal, cause) = match (cause_type, context.cause & CAUSE_CODE_MASK) {
        (IRQType::Exception, 0) => (true, IRQCause::InstructionAlignment),
        (IRQType::Exception, 1) => (true, IRQCause::InstructionAccess),
        (IRQType::Exception, 2) => (true, IRQCause::IllegalInstruction),
        (IRQType::Exception, 3) => (false, IRQCause::Breakpoint),
        (IRQType::Exception, 4) => (true, IRQCause::LoadAlignment),
        (IRQType::Exception, 5) => (true, IRQCause::LoadAccess),
        (IRQType::Exception, 6) => (true, IRQCause::StoreAlignment),
        (IRQType::Exception, 7) => (true, IRQCause::StoreAccess),
        (IRQType::Exception, 8) => (false, IRQCause::UserEnvironmentCall),
        (IRQType::Exception, 9) => (false, IRQCause::SupervisorEnvironmentCall),
        (IRQType::Exception, 11) => (false, IRQCause::KernelEnvironmentCall),
        (IRQType::Exception, 12) => (false, IRQCause::InstructionPageFault),
        (IRQType::Exception, 13) => (false, IRQCause::LoadPageFault),
        (IRQType::Exception, 15) => (false, IRQCause::StorePageFault),
        (IRQType::Interrupt, 0) => (false, IRQCause::UserSWI),
        (IRQType::Interrupt, 1) => (false, IRQCause::SupervisorSWI),
        (IRQType::Interrupt, 3) => (false, IRQCause::KernelSWI),
        (IRQType::Interrupt, 4) => (false, IRQCause::UserTimer),
        (IRQType::Interrupt, 5) => (false, IRQCause::SupervisorTimer),
        (IRQType::Interrupt, 7) => (false, IRQCause::KernelTimer),
        (IRQType::Interrupt, 8) => (false, IRQCause::UserInterrupt),
        (IRQType::Interrupt, 9) => (false, IRQCause::SupervisorInterrupt),
        (IRQType::Interrupt, 11) => (false, IRQCause::KernelInterrupt),
        (_, _) => (false, IRQCause::Unknown),
    };
    IRQ { fatal, irq_type: cause_type, cause, privilege_mode: PrivilegeMode::Kernel, pc: context.epc }
}

/// The arithmetic model reads the register as the hardware lays it out: the
/// quotient by `2^31` is the register shifted right by 31, which is bit 31
/// alone, and the remainder is the register under the code mask.
pub proof fn lemma_model_is_bitwise(cause: u32)
    ensures
        cause / INTERRUPT_BIT == cause >> 31,
        cause % INTERRUPT_BIT == cause & CAUSE_CODE_MASK,
        trap_kind(cause) == IRQType::Interrupt <==> cause & INTERRUPT_BIT == INTERRUPT_BIT,
        trap_kind(cause) == IRQType::Exception <==> cause & INTERRUPT_BIT == 0,
        cause_code(cause) == cause & CAUSE_CODE_MASK,
{
    assert(cause / INTERRUPT_BIT == cause >> 31) by (bit_vector);
    assert(cause % INTERRUPT_BIT == cause & CAUSE_CODE_MASK) by (bit_vector);
    assert(cause >> 31 != 0 <==> cause & INTERRUPT_BIT == INTERRUPT_BIT) by (bit_vector);
    assert(cause >> 31 == 0 <==> cause & INTERRUPT_BIT == 0) by (bit_vector);
}

/// The top bit alone decides the kind. A register that holds only a cause code
/// announces an exception; the same code with the top bit set announces an
/// interrupt; the code that is read back is the same in both.
pub proof fn lemma_top_bit_decides_kind(code: u32)
    requires
        code < INTERRUPT_BIT,
    ensures
        trap_kind(code) == IRQType::Exception,
        trap_kind(code | INTERRUPT_BIT) == IRQType::Interrupt,
        cause_code(code) == code,
        cause_code(code | INTERRUPT_BIT) == code,
{
    assert(code | INTERRUPT_BIT == code + INTERRUPT_BIT) by (bit_vector)
        requires
            code < INTERRUPT_BIT,
    ;
}

/// A trap is `Unknown` exactly when the architecture assigns no meaning to its
/// kind and code, and an unknown trap is never fatal.
pub proof fn lemma_unknown_iff_unassigned(kind: IRQType, code: nat)
    ensures
        trap_table(kind, code).1 == IRQCause::Unknown <==> !is_assigned(kind, code),
        !is_assigned(kind, code) ==> trap_table(kind, code) == (false, IRQCause::Unknown),
{
}

/// The fatal flag depends on the cause alone: a trap is fatal exactly when its
/// cause is an access fault, an alignment fault or an illegal instruction.
/// So no interrupt is fatal, and no page fault, environment call or
/// breakpoint.
pub proof fn lemma_fatal_iff_unrecoverable(kind: IRQType, code: nat)
    ensures
        trap_table(kind, code).0 <==> is_unrecoverable(trap_table(kind, code).1),
        trap_table(kind, code).0 ==> kind == IRQType::Exception && code <= 7 && code != 3,
{
}

} // verus!
