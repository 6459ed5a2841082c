//! The two forms: the monthly payment form and the annual report.

pub mod amsform;
pub mod formutils;
pub mod gpdform;
