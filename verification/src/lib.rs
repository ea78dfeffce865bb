//! Building blocks of a command-line client for the National Weather Service
//! forecast API: argument resolution, request construction, validation of the
//! decoded responses, text rendering, and the pipeline that strings them
//! together. Every function here is verified; network and console I/O are left
//! to the program that drives the pipeline.

pub mod config;
pub mod document;
pub mod endpoint;
pub mod error;
pub mod pipeline;
pub mod present;
pub mod units;
