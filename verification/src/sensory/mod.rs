//! What the overlay shows and when: tip scheduling and the rotation state.

pub mod job;
pub mod job_manager;
