//! Control core of a motorised, height-adjustable table: a decoder for the
//! position signal of the table's motor controller, the movement arbiter that
//! drives the up and down motor lines, and the frame-paced scheduling rules.
pub mod scheduler;
pub mod signal_decoder;
pub mod table_controller;
pub mod table_info;
