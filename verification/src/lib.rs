//! A verified core for a web application that manages production alert
//! monitors: rules that watch a model metric against a threshold on a
//! cadence and notify through configured methods.
//!
//! The library holds the logic of the application: identifiers and their
//! hexadecimal text form, the monitor record with its duplicate rule, the
//! `application/x-www-form-urlencoded` grammar of the alert forms, the
//! route decisions of the POST handlers, and the JSON framing of a stored
//! alert. The surrounding process (HTTP, the relational store, clocks and
//! randomness) stays outside and hands this crate plain values.

pub mod bytes_util;
pub mod id;
pub mod alert;
pub mod variance;
pub mod monitor;
pub mod form;
pub mod json;
pub mod routes;
pub mod link;
