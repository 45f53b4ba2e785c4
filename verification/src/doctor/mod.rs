//! Findings of `dfm doctor` and the verdict drawn from them.

pub mod report;
pub mod verdict;

pub use report::{DoctorReport, Severity, ValidationError};
pub use verdict::{doctor_verdict, DoctorVerdict};
