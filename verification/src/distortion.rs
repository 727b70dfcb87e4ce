pub mod bitcrusher;
pub mod saturator;
