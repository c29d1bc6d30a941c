//! What goes over the wire to the Xero API, and what is made of the answer.
//!
//! Sending is not done here. The functions of [`request`] say which request
//! a call of the API is: its address, its headers and the parameters of its
//! query; and which result a response stands for.

pub mod request;
