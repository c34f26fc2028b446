//! System V message queues, up to the system call.
//!
//! A message queue is a kernel object that keeps tagged byte messages for
//! any process that knows its identifier. This crate holds everything
//! about using one that can be decided without entering the kernel: which
//! call to make and with which arguments, how a message is laid out in the
//! fixed buffer the kernel reads, what the kernel's answer means, and what
//! the command-line front end does with its arguments. Making the calls is
//! left to the program that uses the crate.
//!
//! - [`flags`]: the options of a call, as sets of the kernel's bits.
//! - [`queue`]: the queue handle, the calls it prepares and their results.
//! - [`cli`]: the front end's reading of its arguments and its decisions.

pub mod cli;
pub mod flags;
pub mod queue;
