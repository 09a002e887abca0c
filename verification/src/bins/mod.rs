//! The decisions of the command line, interactive and graphical front ends: what they
//! compute from their input, apart from reading and showing it.
pub mod cli;
pub mod gui;
pub mod icli;
