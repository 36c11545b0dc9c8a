//! A small concurrent request simulator.
//!
//! A dispatch launches a number of independent units of work. Each unit lets
//! some time pass and then counts one request on a counter that all units
//! share; the dispatch ends when every unit has ended. Beside that, a single
//! HTTP GET can be made and its outcome classified.
//!
//! The library holds the state and takes the decisions: what counting a
//! request does to the counter ([`counter`]), how the units reach the counter
//! behind its lock ([`server`]), what a dispatch has to do next and how it
//! ends ([`dispatch`]), what the answer to a GET amounts to ([`request`]), and
//! what is worth logging at which level ([`event`]). Running the units on a
//! runtime, waiting, talking to the network and writing the log are left to
//! the program that uses the library.

pub mod event;
pub mod counter;
pub mod server;
pub mod dispatch;
pub mod request;
