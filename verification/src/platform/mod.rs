//! Traits that chips and boards implement for the core kernel.

pub mod chip;
pub mod mmu;
pub mod mpu;
pub mod platform;
pub mod registration;
pub mod scheduler_timer;
pub mod systick;
pub mod watchdog;
