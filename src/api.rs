pub mod classes;
pub mod features;
pub mod graduated;
pub mod shared;
pub mod spells;
