pub mod emitter;
pub mod monitor;
pub mod output;
pub mod unit;
