//! Identification of AMD GPU chips from the family and revision that the
//! kernel driver reports, and the microarchitectural facts that follow from
//! the chip model.

#![allow(non_camel_case_types)]

pub mod asic;
pub mod capability;
pub mod chip_class;
pub mod device_info;
pub mod family;
pub mod names;

pub use asic::ASIC_NAME;
pub use chip_class::CHIP_CLASS;
pub use family::FAMILY_NAME;
pub use device_info::{amdgpu_sw_info, drm_amdgpu_heap_info, drm_amdgpu_memory_info};
