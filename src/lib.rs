pub mod cpu;
pub mod laws;
pub mod math;
pub mod opcode;
pub mod screen;
