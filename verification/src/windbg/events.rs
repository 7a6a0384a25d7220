use vstd::prelude::*;

verus! {

/// The engine's flag for a change of the debuggee's registers.
pub const DEBUG_CDS_REGISTERS: u32 = 0x1;

/// The engine's flag for a change of the debuggee's memory.
pub const DEBUG_CDS_DATA: u32 = 0x2;

/// The engine's flag for a change that calls for a full refresh.
pub const DEBUG_CDS_REFRESH: u32 = 0x4;

/// The engine's flags for a change of all of the debuggee's state.
pub const DEBUG_CDS_ALL: u32 = 0xffffffff;

/// The engine's event classes that a callback can ask for, one bit each.
pub const DEBUG_EVENT_BREAKPOINT: u32 = 0x1;

pub const DEBUG_EVENT_EXCEPTION: u32 = 0x2;

pub const DEBUG_EVENT_CREATE_THREAD: u32 = 0x4;

pub const DEBUG_EVENT_EXIT_THREAD: u32 = 0x8;

pub const DEBUG_EVENT_CREATE_PROCESS: u32 = 0x10;

pub const DEBUG_EVENT_EXIT_PROCESS: u32 = 0x20;

pub const DEBUG_EVENT_LOAD_MODULE: u32 = 0x40;

pub const DEBUG_EVENT_UNLOAD_MODULE: u32 = 0x80;

pub const DEBUG_EVENT_SYSTEM_ERROR: u32 = 0x100;

pub const DEBUG_EVENT_SESSION_STATUS: u32 = 0x200;

pub const DEBUG_EVENT_CHANGE_DEBUGGEE_STATE: u32 = 0x400;

pub const DEBUG_EVENT_CHANGE_ENGINE_STATE: u32 = 0x800;

pub const DEBUG_EVENT_CHANGE_SYMBOL_STATE: u32 = 0x1000;

/// The union of all event classes.
pub const DEBUG_EVENT_ALL: u32 = 0x1fff;

/// The parts of the debuggee's state that a change notification reports.
#[derive(PartialEq, Eq, Structural, Clone, Copy)]
pub struct DebugeeStateChange {
    bits: u32,
}

/// The event classes that a callback object asks the engine for.
#[derive(PartialEq, Eq, Structural, Clone, Copy)]
pub struct DebugEventInterestFlags {
    bits: u32,
}

/// An event that the engine delivers to the backend's callbacks.
pub enum WinDbgEvent {
    DebugeeStateChange(DebugeeStateChange),
}

/// Every bit of `other` is set in `bits`.
pub open spec fn has_all_bits(bits: u32, other: u32) -> bool {
    bits & other == other
}

impl DebugeeStateChange {
    /// The flag bits of the change.
    pub closed spec fn spec_bits(&self) -> u32 {
        self.bits
    }

    /// A change with exactly the flags `bits`; every bit pattern names flags of
    /// this type, since the full change covers all of them.
    pub fn from_bits(bits: u32) -> (c: Option<Self>)
        ensures
            c matches Some(ch) && ch.spec_bits() == bits,
    {
        if bits & !DEBUG_CDS_ALL == 0 {
            Some(DebugeeStateChange { bits })
        } else {
            assert(bits & !0xffffffffu32 == 0) by (bit_vector);
            None
        }
    }

    /// The flag bits of the change.
    pub fn bits(&self) -> (b: u32)
        ensures
            b == self.spec_bits(),
    {
        self.bits
    }

    /// The register change flag.
    pub fn registers() -> (c: Self)
        ensures
            c.spec_bits() == DEBUG_CDS_REGISTERS,
    {
        DebugeeStateChange { bits: DEBUG_CDS_REGISTERS }
    }

    /// The memory change flag.
    pub fn data() -> (c: Self)
        ensures
            c.spec_bits() == DEBUG_CDS_DATA,
    {
        DebugeeStateChange { bits: DEBUG_CDS_DATA }
    }

    /// The refresh flag.
    pub fn refresh() -> (c: Self)
        ensures
            c.spec_bits() == DEBUG_CDS_REFRESH,
    {
        DebugeeStateChange { bits: DEBUG_CDS_REFRESH }
    }

    /// The flags of a change of all state.
    pub fn all() -> (c: Self)
        ensures
            c.spec_bits() == DEBUG_CDS_ALL,
    {
        DebugeeStateChange { bits: DEBUG_CDS_ALL }
    }

    /// Whether every flag of `other` is set in this change.
    pub fn contains(&self, other: Self) -> (r: bool)
        ensures
            r == has_all_bits(self.spec_bits(), other.spec_bits()),
    {
        self.bits & other.bits == other.bits
    }

    /// Whether the change covers all of the debuggee's state.
    pub fn is_complete_change(&self) -> (r: bool)
        ensures
            r == has_all_bits(self.spec_bits(), DEBUG_CDS_ALL),
    {
        self.contains(DebugeeStateChange::all())
    }
}

/// A change is complete exactly when all of its bits are set.
pub proof fn lemma_complete_change_is_all_bits(c: DebugeeStateChange)
    ensures
        has_all_bits(c.spec_bits(), DEBUG_CDS_ALL) <==> c.spec_bits() == u32::MAX,
{
    let b = c.spec_bits();
    assert((b & 0xffffffffu32 == 0xffffffffu32) <==> b == 0xffffffffu32) by (bit_vector);
}

impl DebugEventInterestFlags {
    /// Only bits that name an event class are ever set.
    #[verifier::type_invariant]
    spec fn names_only_event_classes(self) -> bool {
        self.bits & !DEBUG_EVENT_ALL == 0
    }

    /// The event class bits.
    pub closed spec fn spec_bits(&self) -> u32 {
        self.bits
    }

    /// The flags with exactly `bits`, or `None` when `bits` holds a bit that
    /// names no event class.
    pub fn from_bits(bits: u32) -> (f: Option<Self>)
        ensures
            f is Some <==> bits & !DEBUG_EVENT_ALL == 0,
            f matches Some(fl) ==> fl.spec_bits() == bits,
    {
        if bits & !DEBUG_EVENT_ALL == 0 {
            Some(DebugEventInterestFlags { bits })
        } else {
            None
        }
    }

    /// The event class bits; each names an event class.
    pub fn bits(&self) -> (b: u32)
        ensures
            b == self.spec_bits(),
            b & !DEBUG_EVENT_ALL == 0,
    {
        proof {
            use_type_invariant(self);
        }
        self.bits
    }

    /// The class of changes to the debuggee's state.
    pub fn change_debuggee_state() -> (f: Self)
        ensures
            f.spec_bits() == DEBUG_EVENT_CHANGE_DEBUGGEE_STATE,
    {
        assert(DEBUG_EVENT_CHANGE_DEBUGGEE_STATE & !DEBUG_EVENT_ALL == 0) by (bit_vector);
        DebugEventInterestFlags { bits: DEBUG_EVENT_CHANGE_DEBUGGEE_STATE }
    }

    /// The flags of both `self` and `other`.
    pub fn union(&self, other: Self) -> (f: Self)
        ensures
            f.spec_bits() == self.spec_bits() | other.spec_bits(),
    {
        proof {
            use_type_invariant(self);
            use_type_invariant(&other);
        }
        let (a, b) = (self.bits, other.bits);
        assert((a & !0x1fffu32 == 0 && b & !0x1fffu32 == 0) ==> (a | b) & !0x1fffu32 == 0)
            by (bit_vector);
        DebugEventInterestFlags { bits: a | b }
    }

    /// Whether every class of `other` is in `self`.
    pub fn contains(&self, other: Self) -> (r: bool)
        ensures
            r == has_all_bits(self.spec_bits(), other.spec_bits()),
    {
        self.bits & other.bits == other.bits
    }
}

/// The event for a change notification with flag bits `flags`.
pub fn debuggee_state_event(flags: u32) -> (e: WinDbgEvent)
    ensures
        e matches WinDbgEvent::DebugeeStateChange(c) && c.spec_bits() == flags,
{
    let change = DebugeeStateChange::from_bits(flags);
    WinDbgEvent::DebugeeStateChange(change.unwrap())
}

} // verus!
