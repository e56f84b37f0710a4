//! Two classic object-oriented design patterns, with their behaviour stated
//! as contracts and proved.
//!
//! Nothing here prints. Every operation that would announce itself on a
//! console appends its notification to a [`transcript::Transcript`] instead,
//! so that what an operation says, how often and in which order is part of
//! its contract. A caller that wants the console prints the transcript.
//!
//! * [`abstract_factory`]: families of related products behind one creation
//!   interface.
//! * [`adapter`]: a wrapper that lets an object with a foreign interface serve
//!   where another interface is expected.

pub mod abstract_factory;
pub mod adapter;
pub mod transcript;
