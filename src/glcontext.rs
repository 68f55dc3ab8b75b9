use vstd::prelude::*;

use crate::program::GraphicsCommandList;
use crate::glenum::{ATOMIC_COUNTER_BARRIER_BIT, SHADER_STORAGE_BARRIER_BIT};

verus! {

/// Kinds of memory barrier that a command list can issue.
#[derive(Clone, Copy, Debug, PartialEq, Eq, Structural)]
pub enum MemoryBarrier {
    AtomicCounter,
    ShaderStorage,
    All,
}

impl MemoryBarrier {
    /// The backend bits of this barrier.
    pub open spec fn bits(self) -> u32 {
        match self {
            MemoryBarrier::AtomicCounter => ATOMIC_COUNTER_BARRIER_BIT,
            MemoryBarrier::ShaderStorage => SHADER_STORAGE_BARRIER_BIT,
            MemoryBarrier::All => ATOMIC_COUNTER_BARRIER_BIT | SHADER_STORAGE_BARRIER_BIT,
        }
    }

    /// Returns the backend bitmask of this barrier.
    pub fn get(&self) -> (r: u32)
        ensures
            r == self.bits(),
    {
        match self {
            MemoryBarrier::AtomicCounter => ATOMIC_COUNTER_BARRIER_BIT,
            MemoryBarrier::ShaderStorage => SHADER_STORAGE_BARRIER_BIT,
            MemoryBarrier::All => ATOMIC_COUNTER_BARRIER_BIT | SHADER_STORAGE_BARRIER_BIT,
        }
    }
}

/// `All` holds every bit of each single barrier, and no bit that none of them
/// has: it is their union, not an alias of one of them.
pub proof fn lemma_all_barrier_is_union()
    ensures
        MemoryBarrier::All.bits() & MemoryBarrier::AtomicCounter.bits()
            == MemoryBarrier::AtomicCounter.bits(),
        MemoryBarrier::All.bits() & MemoryBarrier::ShaderStorage.bits()
            == MemoryBarrier::ShaderStorage.bits(),
        MemoryBarrier::All.bits() == MemoryBarrier::AtomicCounter.bits()
            | MemoryBarrier::ShaderStorage.bits(),
        MemoryBarrier::All.bits() != MemoryBarrier::AtomicCounter.bits(),
        MemoryBarrier::All.bits() != MemoryBarrier::ShaderStorage.bits(),
{
    assert(0x1000u32 | 0x2000u32 == 0x3000u32) by (bit_vector);
    assert(0x3000u32 & 0x1000u32 == 0x1000u32) by (bit_vector);
    assert(0x3000u32 & 0x2000u32 == 0x2000u32) by (bit_vector);
}

/// The backend context. Resolving the backend's entry points happens once, in
/// the program around the library; the context then hands out command lists.
pub struct GLContext;

/// Marker for backends that can execute command lists.
pub trait RenderBackend {
}

impl RenderBackend for GLContext {
}

impl GLContext {
    /// A fresh command list, with no pipeline bound.
    pub fn create_command_list(&self) -> (l: GraphicsCommandList)
        ensures
            l.current() == 0,
            l.bound() is None,
    {
        GraphicsCommandList::new()
    }

    /// Submits `list`. This backend executes every call as it is issued, so
    /// there is nothing left to do.
    pub fn execute_command_list(&self, list: &GraphicsCommandList) {
    }
}

} // verus!
