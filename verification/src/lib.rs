//! Verified core of a receipt print dispatcher: printer listings, staged file
//! names, thermal-strip scaling, the bounded re-read and the job's decisions.

pub mod command;
pub mod decimal;
pub mod dispatch;
pub mod outcome;
pub mod platform;
pub mod printers;
pub mod retry;
pub mod scaling;
pub mod staging;
pub mod text;
