//! The daisy-chain encoder: frame layout and the chain driver.

pub mod frame;
pub mod max7219;

pub use max7219::Max7219;
