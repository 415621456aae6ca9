//! Per-protocol record types and collectors, one module per interface kind.

pub mod registry;
pub mod treeland_output_manager;
pub mod wl_output;
pub mod wl_seat;
pub mod wl_shm;
pub mod wp_drm_lease_device;
pub mod wp_presentation;
pub mod xdg_output;
