pub mod cycle;
pub mod encode;
pub mod scan;
