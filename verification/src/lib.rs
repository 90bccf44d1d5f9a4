//! Bridge layer between natively compiled code and an embedded, garbage
//! collected virtual machine ("the machine").
//!
//! Three components share one design idea: adapt between "native value with an
//! address and a scope-bound lifetime" and "runtime value with a slot on the
//! machine's stack and a lifetime governed by tracing collection".
//!
//! - [`bridge`]: installs a native callback as a runtime-callable value and
//!   owns its cleanup through the machine's finalizer mechanism.
//! - [`loadx`]: feeds a sequential byte source to the machine's pull-based
//!   loader and decodes the loader's terminal status into a typed result.
//! - [`dump`]: feeds the machine's push-based serializer into a sequential
//!   byte sink and decodes the serializer's terminal status.
//!
//! The machine itself is an external capability reached over a C call
//! boundary; nothing here re-implements it. This crate holds every decision
//! those adapters make — what to allocate, what to report for each chunk, how
//! each terminal status is decoded — as verified functions over plain values,
//! which the thin foreign shell drives.

pub mod bridge;
pub mod dump;
pub mod loadx;
pub mod status;
