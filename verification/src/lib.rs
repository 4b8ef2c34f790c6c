//! Termino: a stopwatch with laps, countdowns, pomodoro cycling and a log of
//! past sessions, as verified state machines and text builders. Reading the
//! keyboard, drawing on the terminal, notifications and the log's file are
//! left to the program around the library.
pub mod cli;
pub mod clock;
pub mod display;
pub mod pomodoro;
pub mod storage;
pub mod text;
pub mod timer;
