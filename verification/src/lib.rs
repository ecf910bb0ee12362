//! Representation invariants, checked.
//!
//! A value is held to rules on its fields ([`rule`], over the values of
//! [`value`]). A type reports the rules it violates through the protocol of
//! [`protocol`], into the collection of [`errors`]; [`record`] is a checked
//! value given as data. What becomes of the violations is decided in
//! [`report`]. Which operations are checked, and when, is decided in
//! [`policy`], and [`enforce`] runs an operation with its checks. [`declare`]
//! resolves the declarations on the fields of a struct into rules.
//! [`example`] is a worked example.

pub mod declare;
pub mod enforce;
pub mod errors;
pub mod example;
pub mod policy;
pub mod protocol;
pub mod record;
pub mod report;
pub mod rule;
pub mod text;
pub mod value;

pub use crate::errors::RepErrors;
pub use crate::protocol::{CheckFields, CheckIndieFields, CheckRep};
