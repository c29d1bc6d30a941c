//! Client-side building blocks for the Xero API.
//!
//! The heart of the crate is [`rate_limiter`]: admission control that keeps
//! outbound calls inside the three quotas the upstream service enforces at
//! once — calls in flight, calls per tenant per minute, and calls per tenant
//! per day. Every decision it takes is stated as a contract over a
//! mathematical model of the request history and proved against it.
//!
//! Around it stand the smaller decisions a client of the API has to take:
//! [`util`] reads and writes the API's dates, [`endpoints`] says which request
//! a call is and what its response stands for, [`auth`] knows when a token
//! has run out and where a user is sent to authorise the application.
//! [`models`] holds the resources of the API that are plain values, [`error`]
//! the error type that all parts share, and [`text`] and [`clock`] what the
//! others need of strings and of time.
//!
//! Nothing here waits, sleeps or touches a file or the network. Where a
//! caller has to do so, the library says what for and for how long.

pub mod auth;
pub mod clock;
pub mod endpoints;
pub mod error;
pub mod models;
pub mod rate_limiter;
pub mod text;
pub mod util;
