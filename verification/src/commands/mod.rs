//! What each command decides and computes. Reading and writing files,
//! fetching a template and running the PDF tool are left to the caller.

pub mod ams;
pub mod db;
pub mod gpd;
pub mod taxbreakdown;
