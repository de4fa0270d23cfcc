//! The resolver-facing dispatcher: registries of DID resolvers, VC
//! resolvers and loggers, with one aggregation policy per operation kind.
//!
//! A [`Library`] fans each call out to every registered resolver, one
//! exclusive call per resolver in registration order, and folds the
//! outcomes (see [`crate::aggregation`]):
//!
//! - `check_did` / `check_vc`: any-confirms — the document counts as valid
//!   if at least one resolver confirms it;
//! - `get_did_document` / `get_vc_document`: race-first-success — the first
//!   successful response wins, ties broken by ascending registry index;
//! - `set_did_document` / `set_vc_document`: all-or-nothing — every
//!   resolver must succeed, and effects already committed by resolvers that
//!   succeeded before a failing one are not rolled back.

use crate::aggregation::{all_succeed, first_success};
use crate::error::VadeResult;
use crate::traits::{DidResolver, Logger, VcResolver};
use vstd::prelude::*;

verus! {

/// Core of the resolver library: three parallel, append-only registries.
pub struct Library<D, L, V> {
    /// Registered DID resolvers, in registration order.
    pub did_resolvers: Vec<D>,
    /// Registered loggers. Logging iterates through all of them.
    pub loggers: Vec<L>,
    /// Registered VC resolvers, in registration order.
    pub vc_resolvers: Vec<V>,
}

impl<D: DidResolver, L: Logger, V: VcResolver> Library<D, L, V> {
    /// Creates a new `Library` instance; all registries start empty.
    pub fn new() -> (lib: Library<D, L, V>)
        ensures
            lib.did_resolvers@ == Seq::<D>::empty(),
            lib.loggers@ == Seq::<L>::empty(),
            lib.vc_resolvers@ == Seq::<V>::empty(),
    {
        Library { did_resolvers: Vec::new(), loggers: Vec::new(), vc_resolvers: Vec::new() }
    }

    /// Checks the given DID document against every registered resolver:
    /// the document counts as valid if at least one resolver confirms it.
    /// A resolver's failure may mean "not responsible" as well as
    /// "invalid"; the two are not distinguished, so the aggregate error is
    /// always the same generic message.
    ///
    /// # Arguments
    ///
    /// * `did_name` - did name to check the document for
    /// * `value` - document to check
    #[verifier::loop_isolation(false)]
    pub fn check_did(&mut self, did_name: &str, value: &str) -> (r: VadeResult<()>)
        ensures
            *final(self) == *old(self),
            r is Err ==> r->Err_0.message@ == "did document not valid"@,
            old(self).did_resolvers@.len() == 0 ==> r is Err,
    {
        let mut outcomes: Vec<VadeResult<()>> = Vec::new();
        let mut i: usize = 0;
        while i < self.did_resolvers.len()
            invariant
                i <= self.did_resolvers@.len(),
                outcomes@.len() == i,
            decreases self.did_resolvers@.len() - i,
        {
            let outcome = self.did_resolvers[i].check_did(did_name, value);
            outcomes.push(outcome);
            i += 1;
        }
        first_success(outcomes, "did document not valid")
    }

    /// Checks the given VC document against every registered resolver: the
    /// document counts as valid if at least one resolver confirms it, as
    /// with [`Library::check_did`].
    ///
    /// # Arguments
    ///
    /// * `vc_id` - vc id to check the document for
    /// * `value` - document to check
    #[verifier::loop_isolation(false)]
    pub fn check_vc(&mut self, vc_id: &str, value: &str) -> (r: VadeResult<()>)
        ensures
            *final(self) == *old(self),
            r is Err ==> r->Err_0.message@ == "vc document not valid"@,
            old(self).vc_resolvers@.len() == 0 ==> r is Err,
    {
        let mut outcomes: Vec<VadeResult<()>> = Vec::new();
        let mut i: usize = 0;
        while i < self.vc_resolvers.len()
            invariant
                i <= self.vc_resolvers@.len(),
                outcomes@.len() == i,
            decreases self.vc_resolvers@.len() - i,
        {
            let outcome = self.vc_resolvers[i].check_vc(vc_id, value);
            outcomes.push(outcome);
            i += 1;
        }
        first_success(outcomes, "vc document not valid")
    }

    /// Gets the document for the given DID name. With multiple resolvers
    /// registered, the first successful response by ascending registry
    /// index is used; the request fails only if every resolver failed, and
    /// per-resolver error detail is discarded.
    ///
    /// # Arguments
    ///
    /// * `did_name` - did name to fetch
    #[verifier::loop_isolation(false)]
    pub fn get_did_document(&self, did_name: &str) -> (r: VadeResult<String>)
        ensures
            r is Err ==> r->Err_0.message@ == "could not get did document"@,
            self.did_resolvers@.len() == 0 ==> r is Err,
    {
        let mut outcomes: Vec<VadeResult<String>> = Vec::new();
        let mut i: usize = 0;
        while i < self.did_resolvers.len()
            invariant
                i <= self.did_resolvers@.len(),
                outcomes@.len() == i,
            decreases self.did_resolvers@.len() - i,
        {
            let outcome = self.did_resolvers[i].get_did_document(did_name);
            outcomes.push(outcome);
            i += 1;
        }
        first_success(outcomes, "could not get did document")
    }

    /// Gets the document for the given VC name; the first successful
    /// response by ascending registry index is used, as with
    /// [`Library::get_did_document`].
    ///
    /// # Arguments
    ///
    /// * `vc_name` - vc name to fetch
    #[verifier::loop_isolation(false)]
    pub fn get_vc_document(&self, vc_name: &str) -> (r: VadeResult<String>)
        ensures
            r is Err ==> r->Err_0.message@ == "could not get vc document"@,
            self.vc_resolvers@.len() == 0 ==> r is Err,
    {
        let mut outcomes: Vec<VadeResult<String>> = Vec::new();
        let mut i: usize = 0;
        while i < self.vc_resolvers.len()
            invariant
                i <= self.vc_resolvers@.len(),
                outcomes@.len() == i,
            decreases self.vc_resolvers@.len() - i,
        {
            let outcome = self.vc_resolvers[i].get_vc_document(vc_name);
            outcomes.push(outcome);
            i += 1;
        }
        first_success(outcomes, "could not get vc document")
    }

    /// Logs the given message with every registered logger.
    ///
    /// # Arguments
    ///
    /// * `message` - message to log
    /// * `level` - optional logging level
    #[verifier::loop_isolation(false)]
    pub fn log(&self, message: &str, level: Option<&str>) {
        let mut i: usize = 0;
        while i < self.loggers.len()
            invariant
                i <= self.loggers@.len(),
            decreases self.loggers@.len() - i,
        {
            self.loggers[i].log(message, level);
            i += 1;
        }
    }

    /// Registers a new `DidResolver` instance by appending it to the
    /// registry tail; never fails and performs no duplicate detection.
    pub fn register_did_resolver(&mut self, did_resolver: Box<D>)
        ensures
            final(self).did_resolvers@ == old(self).did_resolvers@.push(*did_resolver),
            final(self).loggers == old(self).loggers,
            final(self).vc_resolvers == old(self).vc_resolvers,
    {
        self.did_resolvers.push(*did_resolver);
    }

    /// Registers a new `Logger` instance by appending it to the registry
    /// tail.
    pub fn register_logger(&mut self, logger: Box<L>)
        ensures
            final(self).loggers@ == old(self).loggers@.push(*logger),
            final(self).did_resolvers == old(self).did_resolvers,
            final(self).vc_resolvers == old(self).vc_resolvers,
    {
        self.loggers.push(*logger);
    }

    /// Registers a new `VcResolver` instance by appending it to the
    /// registry tail.
    pub fn register_vc_resolver(&mut self, vc_resolver: Box<V>)
        ensures
            final(self).vc_resolvers@ == old(self).vc_resolvers@.push(*vc_resolver),
            final(self).did_resolvers == old(self).did_resolvers,
            final(self).loggers == old(self).loggers,
    {
        self.vc_resolvers.push(*vc_resolver);
    }

    /// Sets the document for the given DID name on every registered
    /// resolver; every invocation is issued, and the request succeeds only
    /// if all of them succeed. Documents already stored by resolvers that
    /// succeeded before a failing one are not rolled back.
    ///
    /// # Arguments
    ///
    /// * `did_name` - did name to set the value for
    /// * `value` - value to set
    #[verifier::loop_isolation(false)]
    pub fn set_did_document(&mut self, did_name: &str, value: &str) -> (r: VadeResult<()>)
        ensures
            final(self).did_resolvers@.len() == old(self).did_resolvers@.len(),
            final(self).loggers == old(self).loggers,
            final(self).vc_resolvers == old(self).vc_resolvers,
            r is Err ==> r->Err_0.message@ == "could not set did document"@,
            old(self).did_resolvers@.len() == 0 ==> r is Ok,
    {
        let mut outcomes: Vec<VadeResult<()>> = Vec::new();
        let mut i: usize = 0;
        while i < self.did_resolvers.len()
            invariant
                i <= self.did_resolvers@.len(),
                self.did_resolvers@.len() == old(self).did_resolvers@.len(),
                self.loggers == old(self).loggers,
                self.vc_resolvers == old(self).vc_resolvers,
                outcomes@.len() == i,
            decreases self.did_resolvers@.len() - i,
        {
            let outcome = self.did_resolvers[i].set_did_document(did_name, value);
            outcomes.push(outcome);
            i += 1;
        }
        all_succeed(outcomes, "could not set did document")
    }

    /// Sets the document for the given VC name on every registered
    /// resolver; all-or-nothing, as with [`Library::set_did_document`].
    ///
    /// # Arguments
    ///
    /// * `vc_name` - vc name to set the value for
    /// * `value` - value to set
    #[verifier::loop_isolation(false)]
    pub fn set_vc_document(&mut self, vc_name: &str, value: &str) -> (r: VadeResult<()>)
        ensures
            final(self).vc_resolvers@.len() == old(self).vc_resolvers@.len(),
            final(self).loggers == old(self).loggers,
            final(self).did_resolvers == old(self).did_resolvers,
            r is Err ==> r->Err_0.message@ == "could not set vc document"@,
            old(self).vc_resolvers@.len() == 0 ==> r is Ok,
    {
        let mut outcomes: Vec<VadeResult<()>> = Vec::new();
        let mut i: usize = 0;
        while i < self.vc_resolvers.len()
            invariant
                i <= self.vc_resolvers@.len(),
                self.vc_resolvers@.len() == old(self).vc_resolvers@.len(),
                self.loggers == old(self).loggers,
                self.did_resolvers == old(self).did_resolvers,
                outcomes@.len() == i,
            decreases self.vc_resolvers@.len() - i,
        {
            let outcome = self.vc_resolvers[i].set_vc_document(vc_name, value);
            outcomes.push(outcome);
            i += 1;
        }
        all_succeed(outcomes, "could not set vc document")
    }
}

} // verus!
