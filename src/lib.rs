pub mod abi;
pub mod laws;
pub mod name;
pub mod properties;
pub mod text;
