//! A countdown to the next 31 October.
//!
//! The crate decides what a small countdown window shows: how many days are
//! left until the next 31 October, which two lines of text say so, and when
//! the window has to be painted again. Painting, the clock and the window
//! itself belong to the program that uses the crate.

pub mod calendar;
pub mod countdown;
pub mod headline;
pub mod display;
