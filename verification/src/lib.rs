//! Small, fully specified building blocks and the programs built from them:
//! text handling, numeric algorithms, collections, services written against
//! interfaces, an HTTP request/response layer, and the state machines behind
//! a few futures, streams and network servers.

// Text, maps and numbers shared by the rest of the crate.
pub mod text;
pub mod strmap;
pub mod primes;

// Algorithms with full functional contracts.
pub mod benchmark;
pub mod advanced_math;
pub mod helpers;
pub mod parallel;
pub mod basics;
pub mod calculator;
pub mod stack;

// Records, repositories and services.
pub mod user;
pub mod core_crate;
pub mod utils_crate;
pub mod service_crate;
pub mod mocking;
pub mod semver_demo;

// Module trees, visibility and re-exports.
pub mod math;
pub mod animals;
pub mod restaurant;
pub mod network;
pub mod company;
pub mod io_simulation;
pub mod api;
pub mod collections_demo;
pub mod visibility_demo;
pub mod formatter;

// Build options, attributes and derived traits.
pub mod logging;
pub mod features;
pub mod attributes;
pub mod derive_demo;
pub mod describe;
pub mod server_builder;

// Safe forms of pointer code, and functions handed to C callers.
pub mod pointer_ops;
pub mod abi;

// Asynchronous and networked programs: the decisions, without the I/O.
pub mod futures;
pub mod streams;
pub mod kv_service;
pub mod echo_protocol;
pub mod http;
pub mod http_laws;
