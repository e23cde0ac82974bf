pub mod shared;
pub mod string_map;
pub mod text;
pub mod broker;
pub mod ids;
pub mod signing;
pub mod worker;
pub mod diffusion;
pub mod contract;
