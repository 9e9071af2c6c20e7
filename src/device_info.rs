//! Plain values that the driver reports about a device, and what follows
//! from them.

use vstd::prelude::*;

verus! {

/// Sizes of one memory heap, in bytes.
#[derive(Debug, Clone, Copy, PartialEq, Eq, Structural)]
pub struct drm_amdgpu_heap_info {
    /// Total size of the heap.
    pub total_heap_size: u64,
    /// What can be allocated: the total less what is pinned or reserved.
    pub usable_heap_size: u64,
    /// What is in use.
    pub heap_usage: u64,
    /// The largest single allocation the driver allows.
    pub max_allocation: u64,
}

/// The memory heaps of a device.
#[derive(Debug, Clone, Copy, PartialEq, Eq, Structural)]
pub struct drm_amdgpu_memory_info {
    /// All of VRAM.
    pub vram: drm_amdgpu_heap_info,
    /// The part of VRAM that the CPU can reach.
    pub cpu_accessible_vram: drm_amdgpu_heap_info,
    /// The GART aperture.
    pub gtt: drm_amdgpu_heap_info,
}

impl drm_amdgpu_memory_info {
    /// Resizable BAR is on: the CPU reaches at least nine tenths of VRAM.
    /// (The driver keeps part of a large VRAM for pre-OS buffers, such as
    /// the vbios and the boot frame buffer, so the CPU never reaches all of
    /// it.)
    pub fn check_resizable_bar(&self) -> (r: bool)
        ensures
            r == (self.vram.total_heap_size * 9 / 10 <= self.cpu_accessible_vram.total_heap_size),
    {
        let reachable_floor: u128 = (self.vram.total_heap_size as u128) * 9 / 10;
        reachable_floor <= self.cpu_accessible_vram.total_heap_size as u128
    }
}

/// A software setting of the driver that can be queried.
#[derive(Debug, Clone, Copy, PartialEq, Eq, Structural)]
pub enum amdgpu_sw_info {
    /// The upper 32 bits of the 32-bit address space.
    address32_hi,
}

} // verus!
