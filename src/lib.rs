pub mod address;
pub mod errors;
pub mod events;
pub mod helpers;
pub mod instructions;
pub mod pool;
pub mod state;
