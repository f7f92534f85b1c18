//! A CHIP-8 virtual machine: memory, keypad, frame buffer, instruction
//! decoder and CPU, each with its behaviour stated as a contract.
pub mod config;
pub mod cpu;
pub mod framebuffer;
pub mod instr;
pub mod keypad;
pub mod machine;
pub mod memory;
