//! What the library shares with storage backends: the error they report
//! and the page arithmetic of listings.

pub mod base;
