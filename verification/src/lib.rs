//! Income-tax filing core: exact tax arithmetic, the field layout of the two
//! government forms, form-filling sessions, the income ledger, and what each
//! command decides. Files, the network and the PDF tool are left to the
//! caller.

pub mod amount;
pub mod commands;
pub mod config;
pub mod db;
pub mod dict;
pub mod error;
pub mod fdf;
pub mod format;
pub mod forms;
pub mod taxcalculator;
pub mod views;
