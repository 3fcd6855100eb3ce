//! One mouse, one keyboard, two machines: the logic of a program that shares
//! input, sound, clipboard and files between two computers on a network.
//!
//! The library decides; the program around it does the input and output. Where
//! a decision leads to an action on the system, a function returns the action
//! as a value.

pub mod arith;
pub mod audio;
pub mod bytes;
pub mod daemon;
pub mod device;
pub mod hash;
pub mod input;
pub mod ipc;
pub mod layout;
pub mod net;
pub mod order;
pub mod routing;
pub mod source_fsm;
pub mod text;
pub mod ui;
