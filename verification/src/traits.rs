//! Capability traits for interoperability with the dispatch core.
//!
//! Resolvers, loggers and message consumers are external collaborators: the
//! core only fixes the shapes of their operations and how their outcomes are
//! aggregated, never what an individual implementation answers. A trait impl
//! may still state more about itself (see
//! [`crate::plugin::rust_storage_cache::RustStorageCache`]), and callers that
//! know the concrete type benefit from that stronger contract.

use crate::error::VadeResult;
use vstd::prelude::*;

verus! {

/// Implementing struct supports checking, fetching and storing DID
/// documents by their DID name.
pub trait DidResolver {
    /// Checks the given DID document; the document counts as valid if `Ok`
    /// is returned. A resolver may fail either because it is not responsible
    /// for this DID or because it considers the DID invalid; both travel
    /// through the same failure channel and are deliberately not
    /// distinguished.
    fn check_did(&self, did_name: &str, value: &str) -> VadeResult<()>;

    /// Gets the document for the given DID name.
    fn get_did_document(&self, key: &str) -> VadeResult<String>;

    /// Sets the document for the given DID name.
    fn set_did_document(&mut self, key: &str, value: &str) -> VadeResult<()>;
}

/// Implementing struct supports logging.
pub trait Logger {
    /// Logs the given message with the given optional level; levels may
    /// differ based on environment.
    fn log(&self, message: &str, level: Option<&str>);
}

/// Implementing struct supports generic message handling. A consumer is
/// registered with a [`crate::message_router::MessageRouter`] together with
/// the fixed set of message types it subscribes to.
pub trait MessageConsumer {
    /// Reacts to a message of a type this consumer subscribed to and
    /// optionally returns a reply; `Ok(None)` means "no reply", and an `Err`
    /// is a hard failure.
    fn handle_message(&mut self, message_type: &str, message_data: &str) -> VadeResult<
        Option<String>,
    >;
}

/// Implementing struct supports checking, fetching and storing VC documents
/// by their id.
pub trait VcResolver {
    /// Checks the given VC document; the document counts as valid if `Ok`
    /// is returned. As with [`DidResolver::check_did`], "not responsible"
    /// and "invalid" share one failure channel.
    fn check_vc(&self, vc_id: &str, value: &str) -> VadeResult<()>;

    /// Gets the document for the given VC id.
    fn get_vc_document(&self, vc_id: &str) -> VadeResult<String>;

    /// Sets the document for the given VC id.
    fn set_vc_document(&mut self, key: &str, value: &str) -> VadeResult<()>;
}

} // verus!
