//! A provider-agnostic dispatch core for identity-document work: DID and VC
//! operations are fanned out to every registered handler ("plugin"), and the
//! handlers' three-way outcomes are folded into one deterministic response.
//!
//! The crate is organised around four pieces:
//! - the capability interface every handler satisfies ([`VadePlugin`],
//!   [`VadePluginResultValue`] and the resolver traits in [`traits`]);
//! - the aggregation policies that fold per-handler outcomes
//!   ([`aggregation`]);
//! - the dispatchers that own the handler registries ([`Vade`],
//!   [`library::Library`]);
//! - a topic-based message router ([`message_router`]).

pub mod aggregation;
pub mod error;
pub mod library;
pub mod message_router;
pub mod plugin;
pub mod traits;
mod vade;
pub mod vade_plugin;

pub use crate::error::{VadeError, VadeResult};
pub use crate::vade::Vade;
pub use crate::vade_plugin::{VadePlugin, VadePluginResultValue};
