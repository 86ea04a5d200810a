//! Trap classification for a 32-bit RISC-V kernel.
//!
//! When the processor takes a trap, the entry stub captures the trap-cause
//! register and the trapping instruction's address. [`irq::dispatch`] turns that
//! raw pair into a portable [`IRQ`] description, so that the rest of the kernel
//! never has to look at the architecture's encoding.
//!
//! The types live here; the encoding, its model and the lemmas proved of it
//! are in [`irq`].

use vstd::prelude::*;

pub mod irq;

verus! {

/// What the trap entry stub captured, untouched.
#[derive(Clone, Copy, Debug, PartialEq, Eq, Structural)]
pub struct IRQContext {
    /// The trap-cause register: the top bit tells an interrupt from an
    /// exception, the other thirty-one bits are the cause code.
    pub cause: u32,
    /// Address of the instruction that trapped.
    pub epc: usize,
}

/// Whether a trap was raised by the instruction stream or arrived from outside it.
#[derive(Clone, Copy, Debug, PartialEq, Eq, Structural)]
pub enum IRQType {
    /// Synchronous: caused by the instruction at the trap address.
    Exception,
    /// Asynchronous: software, timer or external interrupt.
    Interrupt,
}

/// The reason for a trap, free of any architecture encoding.
#[derive(Clone, Copy, Debug, PartialEq, Eq, Structural)]
pub enum IRQCause {
    /// Software interrupt raised for user mode.
    UserSWI,
    /// Software interrupt raised for supervisor mode.
    SupervisorSWI,
    /// Software interrupt raised for kernel mode.
    KernelSWI,
    /// Timer interrupt for user mode.
    UserTimer,
    /// Timer interrupt for supervisor mode.
    SupervisorTimer,
    /// Timer interrupt for kernel mode.
    KernelTimer,
    /// External interrupt for user mode.
    UserInterrupt,
    /// External interrupt for supervisor mode.
    SupervisorInterrupt,
    /// External interrupt for kernel mode.
    KernelInterrupt,
    /// Instruction fetch from a misaligned address.
    InstructionAlignment,
    /// Instruction fetch the hardware refused.
    InstructionAccess,
    /// Instruction the hardware could not decode or may not run here.
    IllegalInstruction,
    /// Instruction fetch from an unmapped page.
    InstructionPageFault,
    /// Load from a misaligned address.
    LoadAlignment,
    /// Load the hardware refused.
    LoadAccess,
    /// Load from an unmapped page.
    LoadPageFault,
    /// Store to a misaligned address.
    StoreAlignment,
    /// Store the hardware refused.
    StoreAccess,
    /// Store to an unmapped page.
    StorePageFault,
    /// Breakpoint instruction.
    Breakpoint,
    /// Environment call made from user mode.
    UserEnvironmentCall,
    /// Environment call made from supervisor mode.
    SupervisorEnvironmentCall,
    /// Environment call made from kernel mode.
    KernelEnvironmentCall,
    /// A cause code the architecture does not assign.
    Unknown,
}

/// Privilege level at which a trap is handled.
#[derive(Clone, Copy, Debug, PartialEq, Eq, Structural)]
pub enum PrivilegeMode {
    /// The kernel's own level (machine mode).
    Kernel,
    /// Supervisor level.
    Supervisor,
    /// User level.
    User,
}

/// A classified trap, as handed to the portable kernel.
#[derive(Clone, Copy, Debug, PartialEq, Eq, Structural)]
pub struct IRQ {
    /// True when this layer has no way to resume: the trap needs intervention.
    pub fatal: bool,
    /// Exception or interrupt.
    pub irq_type: IRQType,
    /// What happened.
    pub cause: IRQCause,
    /// Level at which the trap is being handled.
    pub privilege_mode: PrivilegeMode,
    /// Address of the instruction that trapped.
    pub pc: usize,
}

} // verus!
