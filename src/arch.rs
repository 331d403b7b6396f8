//! What a core does out of reset: which role its id gives it, which stack it
//! gets, the register values that drop it from hypervisor to kernel privilege,
//! and the states it then goes through.
use crate::bsp::{BOOT_CORE_STACK_START, NUM_CORES, SECONDARY_STACK_PATTERN, SLAVE_STACK_SHIFT};
use vstd::prelude::*;

verus! {

/// Architectural privilege level.
#[derive(Clone, Copy, PartialEq, Eq, Debug, Structural)]
pub enum PrivilegeLevel {
    User,
    Kernel,
    Hypervisor,
    Unknown,
}

/// The exception level field of a CurrentEL value: bits 2 and 3.
pub open spec fn el_field(current_el: u64) -> u64 {
    (current_el >> 2u64) & 3u64
}

/// The privilege level, and its architectural name, that a CurrentEL value holds.
pub open spec fn spec_privilege_level(current_el: u64) -> (PrivilegeLevel, Seq<char>) {
    let el = el_field(current_el);
    if el == 2 {
        (PrivilegeLevel::Hypervisor, "EL2"@)
    } else if el == 1 {
        (PrivilegeLevel::Kernel, "EL1"@)
    } else if el == 0 {
        (PrivilegeLevel::User, "EL0"@)
    } else {
        (PrivilegeLevel::Unknown, "Unknown"@)
    }
}

/// The processing element's privilege level, decoded from its CurrentEL register.
pub fn current_privilege_level(current_el: u64) -> (r: (PrivilegeLevel, &'static str))
    ensures
        (r.0, r.1@) == spec_privilege_level(current_el),
{
    let el = (current_el >> 2u64) & 3u64;
    if el == 2 {
        (PrivilegeLevel::Hypervisor, "EL2")
    } else if el == 1 {
        (PrivilegeLevel::Kernel, "EL1")
    } else if el == 0 {
        (PrivilegeLevel::User, "EL0")
    } else {
        (PrivilegeLevel::Unknown, "Unknown")
    }
}

/// Which exception classes a DAIF value masks.
#[derive(Clone, Copy, PartialEq, Eq, Debug, Structural)]
pub struct ExceptionMasks {
    pub debug: bool,
    pub serror: bool,
    pub irq: bool,
    pub fiq: bool,
}

/// The exception classes that a DAIF value masks: bits 9 (debug), 8 (SError),
/// 7 (IRQ) and 6 (FIQ).
pub fn exception_masks(daif: u64) -> (r: ExceptionMasks)
    ensures
        r.debug == (daif & SPSR_D_MASKED != 0),
        r.serror == (daif & SPSR_A_MASKED != 0),
        r.irq == (daif & SPSR_I_MASKED != 0),
        r.fiq == (daif & SPSR_F_MASKED != 0),
{
    ExceptionMasks {
        debug: daif & SPSR_D_MASKED != 0,
        serror: daif & SPSR_A_MASKED != 0,
        irq: daif & SPSR_I_MASKED != 0,
        fiq: daif & SPSR_F_MASKED != 0,
    }
}

/// The mask of the core id in MPIDR_EL1: the low two bits, for four cores.
pub const CORE_MASK: u64 = 0x3;

/// The id of the core, taken from its MPIDR_EL1 value.
pub fn get_core_id(mpidr: u64) -> (r: u64)
    ensures
        r == mpidr & CORE_MASK,
        r < 4,
{
    let r = mpidr & CORE_MASK;
    assert(mpidr & 3u64 < 4u64) by (bit_vector);
    r
}

/// The size in bytes of each core's stack: 2 to the power `SLAVE_STACK_SHIFT`.
pub open spec fn stack_size() -> int {
    (1u64 << SLAVE_STACK_SHIFT) as int
}

/// The top of the stack of core `id`, for `id < NUM_CORES`: a fixed address for
/// the master, and for a secondary core the id below the stack pattern,
/// shifted by the stack size.
pub open spec fn spec_stack_top(id: u64) -> u64 {
    if id == 0 {
        BOOT_CORE_STACK_START
    } else {
        ((SECONDARY_STACK_PATTERN | id) << SLAVE_STACK_SHIFT) as u64
    }
}

/// Where a core goes out of reset.
#[derive(Clone, Copy, PartialEq, Eq, Debug, Structural)]
pub enum CoreRoute {
    /// Core 0: bootstrap with the boot stack, then run the kernel.
    Master { stack_top: u64 },
    /// Cores 1 to 3: bootstrap with the core's own stack, then wait for jobs.
    Secondary { stack_top: u64 },
    /// Any other id: wait for events forever.
    Parked,
}

pub open spec fn spec_route(core_id: u64) -> CoreRoute {
    if core_id == 0 {
        CoreRoute::Master { stack_top: spec_stack_top(0) }
    } else if core_id < NUM_CORES {
        CoreRoute::Secondary { stack_top: spec_stack_top(core_id) }
    } else {
        CoreRoute::Parked
    }
}

/// Routes a core by its id alone, using no shared data.
pub fn route_core(core_id: u64) -> (r: CoreRoute)
    ensures
        r == spec_route(core_id),
{
    if core_id == 0 {
        CoreRoute::Master { stack_top: BOOT_CORE_STACK_START }
    } else if core_id < NUM_CORES as u64 {
        CoreRoute::Secondary { stack_top: (SECONDARY_STACK_PATTERN | core_id) << SLAVE_STACK_SHIFT }
    } else {
        CoreRoute::Parked
    }
}

/// The stacks of two different cores do not overlap, each stack being the
/// `stack_size()` bytes below its top, and no stack runs below address zero.
pub proof fn lemma_stacks_disjoint(i: u64, j: u64)
    requires
        i < NUM_CORES,
        j < NUM_CORES,
        i != j,
    ensures
        spec_stack_top(i) >= stack_size(),
        spec_stack_top(i) + stack_size() <= spec_stack_top(j) || spec_stack_top(j)
            + stack_size() <= spec_stack_top(i),
{
    assert(1u64 << 14u64 == 16384u64) by (bit_vector);
    assert(forall|id: u64|
        0 < id < 4 ==> #[trigger] ((44u64 | id) << 14u64) == (44u64 + id) * 16384u64)
        by (bit_vector);
}

/// CNTHCTL_EL2.EL1PCEN: EL1 may reach the physical timer registers.
pub const CNTHCTL_EL1PCEN: u64 = 1u64 << 1u64;

/// CNTHCTL_EL2.EL1PCTEN: EL1 may read the physical counter.
pub const CNTHCTL_EL1PCTEN: u64 = 1u64;

/// HCR_EL2.RW: EL1 runs in AArch64 state.
pub const HCR_RW_EL1_IS_AARCH64: u64 = 1u64 << 31u64;

/// SPSR_EL2.D: debug exceptions masked.
pub const SPSR_D_MASKED: u64 = 1u64 << 9u64;

/// SPSR_EL2.A: SError interrupts masked.
pub const SPSR_A_MASKED: u64 = 1u64 << 8u64;

/// SPSR_EL2.I: IRQ interrupts masked.
pub const SPSR_I_MASKED: u64 = 1u64 << 7u64;

/// SPSR_EL2.F: FIQ interrupts masked.
pub const SPSR_F_MASKED: u64 = 1u64 << 6u64;

/// SPSR_EL2.M: EL1 with its own stack pointer, SP_EL1.
pub const SPSR_M_EL1H: u64 = 0b0101;

/// The register values that a core at EL2 writes before its exception return
/// drops it to EL1.
#[derive(Clone, Copy, PartialEq, Eq, Debug, Structural)]
pub struct El1Entry {
    /// Timer access for EL1.
    pub cnthctl_el2: u64,
    /// Offset of the virtual counter.
    pub cntvoff_el2: u64,
    /// Execution state of EL1.
    pub hcr_el2: u64,
    /// The saved program status that the return restores.
    pub spsr_el2: u64,
    /// The address that the return jumps to.
    pub elr_el2: u64,
    /// The stack pointer EL1 starts with.
    pub sp_el1: u64,
}

/// The register values that drop a core from EL2 to EL1 and start it in
/// `next_func_addr` on the stack `stack_start_addr`: EL1 reaches the timer
/// counters, the counter offset is zero, EL1 runs in AArch64 state, and the
/// synthetic saved state masks every interrupt class and selects SP_EL1.
pub fn el2_to_el1_transition(next_func_addr: u64, stack_start_addr: u64) -> (r: El1Entry)
    ensures
        r.cnthctl_el2 == CNTHCTL_EL1PCEN | CNTHCTL_EL1PCTEN,
        r.cntvoff_el2 == 0,
        r.hcr_el2 == HCR_RW_EL1_IS_AARCH64,
        r.spsr_el2 == SPSR_D_MASKED | SPSR_A_MASKED | SPSR_I_MASKED | SPSR_F_MASKED | SPSR_M_EL1H,
        r.elr_el2 == next_func_addr,
        r.sp_el1 == stack_start_addr,
{
    El1Entry {
        cnthctl_el2: CNTHCTL_EL1PCEN | CNTHCTL_EL1PCTEN,
        cntvoff_el2: 0,
        hcr_el2: HCR_RW_EL1_IS_AARCH64,
        spsr_el2: SPSR_D_MASKED | SPSR_A_MASKED | SPSR_I_MASKED | SPSR_F_MASKED | SPSR_M_EL1H,
        elr_el2: next_func_addr,
        sp_el1: stack_start_addr,
    }
}

/// The states of a core from reset on.
#[derive(Clone, Copy, PartialEq, Eq, Debug, Structural)]
pub enum CoreState {
    Reset,
    Bootstrapping,
    MasterRunning,
    SecondaryWaiting,
    SecondaryRunning,
    Parked,
}

/// What moves a core from one state to the next.
#[derive(Clone, Copy, PartialEq, Eq, Debug, Structural)]
pub enum CoreEvent {
    /// The core carries on past reset or past its bootstrap.
    Advance,
    /// A waiting secondary core looked at its job slot.
    SlotPolled { occupied: bool },
    /// The job that a secondary core ran has returned.
    JobReturned,
}

pub open spec fn spec_next_state(state: CoreState, core_id: u64, event: CoreEvent) -> CoreState {
    match (state, event) {
        (CoreState::Reset, CoreEvent::Advance) => if core_id < NUM_CORES {
            CoreState::Bootstrapping
        } else {
            CoreState::Parked
        },
        (CoreState::Bootstrapping, CoreEvent::Advance) => if core_id == 0 {
            CoreState::MasterRunning
        } else {
            CoreState::SecondaryWaiting
        },
        (CoreState::SecondaryWaiting, CoreEvent::SlotPolled { occupied }) => if occupied {
            CoreState::SecondaryRunning
        } else {
            CoreState::SecondaryWaiting
        },
        (CoreState::SecondaryRunning, CoreEvent::JobReturned) => CoreState::SecondaryWaiting,
        _ => state,
    }
}

/// The state of core `core_id` after `events`, from `state` on.
pub open spec fn spec_run(state: CoreState, core_id: u64, events: Seq<CoreEvent>) -> CoreState
    decreases events.len(),
{
    if events.len() == 0 {
        state
    } else {
        spec_next_state(spec_run(state, core_id, events.drop_last()), core_id, events.last())
    }
}

/// The next state of core `core_id` in `state` on `event`.
pub fn next_state(state: CoreState, core_id: u64, event: CoreEvent) -> (r: CoreState)
    ensures
        r == spec_next_state(state, core_id, event),
{
    match (state, event) {
        (CoreState::Reset, CoreEvent::Advance) => if core_id < NUM_CORES as u64 {
            CoreState::Bootstrapping
        } else {
            CoreState::Parked
        },
        (CoreState::Bootstrapping, CoreEvent::Advance) => if core_id == 0 {
            CoreState::MasterRunning
        } else {
            CoreState::SecondaryWaiting
        },
        (CoreState::SecondaryWaiting, CoreEvent::SlotPolled { occupied }) => if occupied {
            CoreState::SecondaryRunning
        } else {
            CoreState::SecondaryWaiting
        },
        (CoreState::SecondaryRunning, CoreEvent::JobReturned) => CoreState::SecondaryWaiting,
        _ => state,
    }
}

proof fn lemma_unknown_core_reset_or_parked(core_id: u64, events: Seq<CoreEvent>)
    requires
        core_id >= NUM_CORES,
    ensures
        spec_run(CoreState::Reset, core_id, events) == CoreState::Reset || spec_run(
            CoreState::Reset,
            core_id,
            events,
        ) == CoreState::Parked,
    decreases events.len(),
{
    if events.len() > 0 {
        lemma_unknown_core_reset_or_parked(core_id, events.drop_last());
    }
}

/// A core whose id is out of range is routed to the parked wait, reaches Parked
/// on its first step, and from then on stays there whatever happens: it never
/// bootstraps, in no prefix of any run.
pub proof fn lemma_unknown_core_parks(core_id: u64, events: Seq<CoreEvent>)
    requires
        core_id >= NUM_CORES,
    ensures
        spec_route(core_id) == CoreRoute::Parked,
        spec_next_state(CoreState::Reset, core_id, CoreEvent::Advance) == CoreState::Parked,
        spec_run(CoreState::Parked, core_id, events) == CoreState::Parked,
        forall|k: int|
            0 <= k <= events.len() ==> {
                let s = #[trigger] spec_run(CoreState::Reset, core_id, events.take(k));
                s == CoreState::Reset || s == CoreState::Parked
            },
    decreases events.len(),
{
    if events.len() > 0 {
        lemma_unknown_core_parks(core_id, events.drop_last());
    }
    assert forall|k: int| 0 <= k <= events.len() implies {
        let s = #[trigger] spec_run(CoreState::Reset, core_id, events.take(k));
        s == CoreState::Reset || s == CoreState::Parked
    } by {
        lemma_unknown_core_reset_or_parked(core_id, events.take(k));
    }
}

} // verus!
