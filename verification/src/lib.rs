//! Core engine of a two-environment project launcher: discovers local
//! software projects in a native and a bridged (proxied) environment,
//! reports their version-control state, and plans version-control
//! mutations as concrete command lines whose raw output it parses and
//! classifies.  All out-of-process execution lives outside this crate;
//! everything here is pure logic over the values such processes return.

pub mod classify;
pub mod command;
pub mod merge;
pub mod model;
pub mod numbers;
pub mod ops;
pub mod parse;
pub mod push;
pub mod scan;
pub mod status;
pub mod templates;
pub mod text;
