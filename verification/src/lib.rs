//! Resolution of pasted links into a download location and a file name,
//! together with the checks and the page building that surround it.

pub mod laws;
pub mod paimon;
pub mod prime_down;
pub mod providers;
pub mod render;
pub mod system;
pub mod text;
pub mod url;
pub mod validation;
