//! A single-slot wakeup register: remembers which one task wants to be
//! resumed when a resource changes state, and resumes it on demand.
pub mod waker;
pub mod registration;
pub mod lemmas;

pub use registration::WakerRegistration;
