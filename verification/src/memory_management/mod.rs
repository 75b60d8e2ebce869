//! Memory management: granules, pointers, slices, regions and memory
//! configurations of the kernel and of processes.

pub mod allocators;
pub mod configuration;
pub mod granules;
pub mod pages;
pub mod permissions;
pub mod pointers;
pub mod regions;
pub mod slices;
