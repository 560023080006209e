//! A real-time market-data relay core: a registry of subscriber clients, a
//! subscription router that matches trade events against subscriptions, a
//! permissive decoder for inbound control frames, renderers for the
//! outbound wire frames, and a fixed-point synthetic trade generator.
//!
//! The concurrency shell — sockets, channels, tasks, the lock around the
//! shared registry — lives outside this crate; every decision it takes
//! (who gets which frame, what a control frame does, how a price walks) is
//! a function here, with its contract.
pub mod control;
pub mod frames;
pub mod gen;
pub mod laws;
pub mod registry;
pub mod relay;
pub mod router;
