//! Sampling from the Dirichlet distribution over binary64 bit patterns.
//!
//! A [`Dirichlet`] holds a validated concentration vector. One draw is made
//! in two steps: [`Dirichlet::requests`] lists the beta or gamma variates the
//! draw consumes, and [`Dirichlet::sample`] assembles a point of the simplex
//! from those variates.
//!
//! Every real number in this crate is an IEEE 754 binary64 value held as its
//! bit pattern in a `u64`; the module [`binary64`] says how the patterns are
//! read and combined.

pub mod binary64;
pub mod dirichlet;
pub mod error;
pub mod simplex;

pub use crate::dirichlet::{Dirichlet, Request, Strategy};
pub use crate::error::Error;
