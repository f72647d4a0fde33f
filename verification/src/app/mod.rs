//! The running application: what it watches, what it scans, and what it does
//! when something happens.

pub mod scan;
pub mod state;
pub mod watching;
