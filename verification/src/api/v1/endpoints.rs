pub mod runs;
pub mod trigger;
pub mod workflows;
