//! The central dispatcher: owns the plugin registry and fans every call out
//! to all registered plugins.
//!
//! A [`Vade`] instance is the single point of contact for interacting with
//! DIDs and VCs. Every plugin-related function is delegated to the function
//! with the same name on each registered [`VadePlugin`], one exclusive call
//! per plugin, in registration order; the outcomes are then folded with the
//! collect-all-successes policy (see [`crate::aggregation`]): the `Success`
//! values in registry order, or one aggregate error naming the operation and
//! target if any plugin raised a hard error. An empty result list is a valid
//! outcome and not an error, so callers cannot distinguish "no plugin
//! implements this operation" from "every plugin declined it".

use crate::aggregation::{
    collect_all_successes, dispatch_error_message, filter_successes, lemma_collect_all_len_bound,
    successes_of,
};
use crate::error::VadeResult;
use crate::vade_plugin::{VadePlugin, VadePluginResultValue};
use vstd::prelude::*;

verus! {

/// The dispatcher owning an append-only, ordered registry of plugins.
///
/// The registry is homogeneous in the plugin type `P`; an embedding
/// application picks one capability-providing type (or its own enum over
/// several) and registers any number of instances of it.
pub struct Vade<P> {
    /// Registered plugins, in registration order. The order is significant:
    /// it defines result ordering and tie-breaks, and is never reordered or
    /// deduplicated.
    pub plugins: Vec<P>,
}

impl<P: VadePlugin> Vade<P> {
    /// Creates a new `Vade` instance with an empty plugin registry.
    pub fn new() -> (v: Vade<P>)
        ensures
            v.plugins@ == Seq::<P>::empty(),
    {
        Vade { plugins: Vec::new() }
    }

    /// Registers a new plugin by appending it to the registry tail; never
    /// fails and performs no duplicate detection.
    pub fn register_plugin(&mut self, plugin: Box<P>)
        ensures
            final(self).plugins@ == old(self).plugins@.push(*plugin),
    {
        self.plugins.push(*plugin);
    }

    /// Keeps the payload of every `Success` answer, in registry order,
    /// dropping `Ignored` and `NotImplemented` answers; never fails.
    ///
    /// The operation name and target are what a dispatch entry point would
    /// report on failure; the fold itself does not read them.
    pub fn filter_results<T>(
        &self,
        _task_name: &str,
        _did_or_method: &str,
        results: Vec<VadePluginResultValue<T>>,
    ) -> (r: VadeResult<Vec<T>>)
        ensures
            r is Ok && r->Ok_0@ == successes_of(results@),
    {
        Ok(filter_successes(results))
    }

    /// Creates a new DID. May also persist a DID document for it, depending
    /// on plugin implementation.
    ///
    /// # Arguments
    ///
    /// * `did_method` - did method to cater to, usually also used by plugins
    ///   to decide if a plugin will process the request
    /// * `options` - options string supporting the request (e.g.
    ///   authentication data)
    /// * `payload` - payload string with information for the request (e.g.
    ///   actual data to write)
    #[verifier::loop_isolation(false)]
    pub fn did_create(
        &mut self,
        did_method: &str,
        options: &str,
        payload: &str,
    ) -> (r: VadeResult<Vec<Option<String>>>)
        ensures
            final(self).plugins@.len() == old(self).plugins@.len(),
            r is Ok ==> r->Ok_0@.len() <= old(self).plugins@.len(),
            old(self).plugins@.len() == 0 ==> r is Ok && r->Ok_0@.len() == 0,
            r is Err ==> exists|detail: Seq<char>|
                r->Err_0.message@ == dispatch_error_message("did_create"@, did_method@, detail),
    {
        let task_name = "did_create";
        let mut outcomes: Vec<VadeResult<VadePluginResultValue<Option<String>>>> = Vec::new();
        let mut i: usize = 0;
        while i < self.plugins.len()
            invariant
                i <= self.plugins@.len(),
                self.plugins@.len() == old(self).plugins@.len(),
                outcomes@.len() == i,
            decreases self.plugins@.len() - i,
        {
            let outcome = self.plugins[i].did_create(did_method, options, payload);
            outcomes.push(outcome);
            i += 1;
        }
        proof {
            lemma_collect_all_len_bound(outcomes@);
        }
        collect_all_successes(task_name, did_method, outcomes)
    }

    /// Fetches data about a DID; this usually returns a DID document.
    ///
    /// Collect-all-successes dispatch over every registered plugin.
    ///
    /// # Arguments
    ///
    /// * `did` - did to fetch data for
    #[verifier::loop_isolation(false)]
    pub fn did_resolve(
        &mut self,
        did: &str,
    ) -> (r: VadeResult<Vec<Option<String>>>)
        ensures
            final(self).plugins@.len() == old(self).plugins@.len(),
            r is Ok ==> r->Ok_0@.len() <= old(self).plugins@.len(),
            old(self).plugins@.len() == 0 ==> r is Ok && r->Ok_0@.len() == 0,
            r is Err ==> exists|detail: Seq<char>|
                r->Err_0.message@ == dispatch_error_message("did_resolve"@, did@, detail),
    {
        let task_name = "did_resolve";
        let mut outcomes: Vec<VadeResult<VadePluginResultValue<Option<String>>>> = Vec::new();
        let mut i: usize = 0;
        while i < self.plugins.len()
            invariant
                i <= self.plugins@.len(),
                self.plugins@.len() == old(self).plugins@.len(),
                outcomes@.len() == i,
            decreases self.plugins@.len() - i,
        {
            let outcome = self.plugins[i].did_resolve(did);
            outcomes.push(outcome);
            i += 1;
        }
        proof {
            lemma_collect_all_len_bound(outcomes@);
        }
        collect_all_successes(task_name, did, outcomes)
    }

    /// Updates data related to a DID. May also persist a DID document for it,
    /// depending on plugin implementation.
    ///
    /// Collect-all-successes dispatch over every registered plugin.
    ///
    /// # Arguments
    ///
    /// * `did` - DID to update data for
    /// * `options` - options string supporting the request (e.g. authentication data)
    /// * `payload` - payload string with information for the request (e.g. actual data to write)
    #[verifier::loop_isolation(false)]
    pub fn did_update(
        &mut self,
        did: &str,
        options: &str,
        payload: &str,
    ) -> (r: VadeResult<Vec<Option<String>>>)
        ensures
            final(self).plugins@.len() == old(self).plugins@.len(),
            r is Ok ==> r->Ok_0@.len() <= old(self).plugins@.len(),
            old(self).plugins@.len() == 0 ==> r is Ok && r->Ok_0@.len() == 0,
            r is Err ==> exists|detail: Seq<char>|
                r->Err_0.message@ == dispatch_error_message("did_update"@, did@, detail),
    {
        let task_name = "did_update";
        let mut outcomes: Vec<VadeResult<VadePluginResultValue<Option<String>>>> = Vec::new();
        let mut i: usize = 0;
        while i < self.plugins.len()
            invariant
                i <= self.plugins@.len(),
                self.plugins@.len() == old(self).plugins@.len(),
                outcomes@.len() == i,
            decreases self.plugins@.len() - i,
        {
            let outcome = self.plugins[i].did_update(did, options, payload);
            outcomes.push(outcome);
            i += 1;
        }
        proof {
            lemma_collect_all_len_bound(outcomes@);
        }
        collect_all_successes(task_name, did, outcomes)
    }

    /// Processes a DIDComm message as received; a plugin that can interpret
    /// the message may prepare a matching response for it.
    ///
    /// Collect-all-successes dispatch over every registered plugin.
    ///
    /// # Arguments
    ///
    /// * `options` - options string supporting the request (e.g. authentication data)
    /// * `payload` - payload string with information for the request (e.g. actual data to write)
    #[verifier::loop_isolation(false)]
    pub fn didcomm_receive(
        &mut self,
        options: &str,
        payload: &str,
    ) -> (r: VadeResult<Vec<Option<String>>>)
        ensures
            final(self).plugins@.len() == old(self).plugins@.len(),
            r is Ok ==> r->Ok_0@.len() <= old(self).plugins@.len(),
            old(self).plugins@.len() == 0 ==> r is Ok && r->Ok_0@.len() == 0,
            r is Err ==> exists|detail: Seq<char>|
                r->Err_0.message@ == dispatch_error_message("didcomm_receive"@, "didcomm_receive"@, detail),
    {
        let task_name = "didcomm_receive";
        let mut outcomes: Vec<VadeResult<VadePluginResultValue<Option<String>>>> = Vec::new();
        let mut i: usize = 0;
        while i < self.plugins.len()
            invariant
                i <= self.plugins@.len(),
                self.plugins@.len() == old(self).plugins@.len(),
                outcomes@.len() == i,
            decreases self.plugins@.len() - i,
        {
            let outcome = self.plugins[i].didcomm_receive(options, payload);
            outcomes.push(outcome);
            i += 1;
        }
        proof {
            lemma_collect_all_len_bound(outcomes@);
        }
        collect_all_successes(task_name, task_name, outcomes)
    }

    /// Processes a DIDComm message and prepares it for sending. It may be
    /// sent, depending on the configuration and implementation of underlying
    /// plugins.
    ///
    /// Collect-all-successes dispatch over every registered plugin.
    ///
    /// # Arguments
    ///
    /// * `options` - options string supporting the request (e.g. authentication data)
    /// * `payload` - payload string with information for the request (e.g. actual data to write)
    #[verifier::loop_isolation(false)]
    pub fn didcomm_send(
        &mut self,
        options: &str,
        payload: &str,
    ) -> (r: VadeResult<Vec<Option<String>>>)
        ensures
            final(self).plugins@.len() == old(self).plugins@.len(),
            r is Ok ==> r->Ok_0@.len() <= old(self).plugins@.len(),
            old(self).plugins@.len() == 0 ==> r is Ok && r->Ok_0@.len() == 0,
            r is Err ==> exists|detail: Seq<char>|
                r->Err_0.message@ == dispatch_error_message("didcomm_send"@, "didcomm_send"@, detail),
    {
        let task_name = "didcomm_send";
        let mut outcomes: Vec<VadeResult<VadePluginResultValue<Option<String>>>> = Vec::new();
        let mut i: usize = 0;
        while i < self.plugins.len()
            invariant
                i <= self.plugins@.len(),
                self.plugins@.len() == old(self).plugins@.len(),
                outcomes@.len() == i,
            decreases self.plugins@.len() - i,
        {
            let outcome = self.plugins[i].didcomm_send(options, payload);
            outcomes.push(outcome);
            i += 1;
        }
        proof {
            lemma_collect_all_len_bound(outcomes@);
        }
        collect_all_successes(task_name, task_name, outcomes)
    }

    /// Runs a custom function: calls outside the fixed operation set that a
    /// project's plugins may support.
    ///
    /// Collect-all-successes dispatch over every registered plugin.
    ///
    /// # Arguments
    ///
    /// * `method` - method to call a function for (e.g. "did:example")
    /// * `function` - function to call (e.g. "test connection")
    /// * `options` - options string supporting the request (e.g. authentication data)
    /// * `payload` - payload string with information for the request (e.g. actual data to write)
    #[verifier::loop_isolation(false)]
    pub fn run_custom_function(
        &mut self,
        method: &str,
        function: &str,
        options: &str,
        payload: &str,
    ) -> (r: VadeResult<Vec<Option<String>>>)
        ensures
            final(self).plugins@.len() == old(self).plugins@.len(),
            r is Ok ==> r->Ok_0@.len() <= old(self).plugins@.len(),
            old(self).plugins@.len() == 0 ==> r is Ok && r->Ok_0@.len() == 0,
            r is Err ==> exists|detail: Seq<char>|
                r->Err_0.message@ == dispatch_error_message("run_custom_function"@, method@, detail),
    {
        let task_name = "run_custom_function";
        let mut outcomes: Vec<VadeResult<VadePluginResultValue<Option<String>>>> = Vec::new();
        let mut i: usize = 0;
        while i < self.plugins.len()
            invariant
                i <= self.plugins@.len(),
                self.plugins@.len() == old(self).plugins@.len(),
                outcomes@.len() == i,
            decreases self.plugins@.len() - i,
        {
            let outcome = self.plugins[i].run_custom_function(method, function, options, payload);
            outcomes.push(outcome);
            i += 1;
        }
        proof {
            lemma_collect_all_len_bound(outcomes@);
        }
        collect_all_successes(task_name, method, outcomes)
    }

    /// Creates a new zero-knowledge proof credential definition. A credential
    /// definition holds cryptographic key material and is needed by an issuer
    /// to issue a credential; it is always bound to one credential schema.
    ///
    /// Collect-all-successes dispatch over every registered plugin.
    ///
    /// # Arguments
    ///
    /// * `method` - method to address (e.g. "did:example")
    /// * `options` - options string supporting the request (e.g. authentication data)
    /// * `payload` - payload string with information for the request (e.g. actual data to write)
    #[verifier::loop_isolation(false)]
    pub fn vc_zkp_create_credential_definition(
        &mut self,
        method: &str,
        options: &str,
        payload: &str,
    ) -> (r: VadeResult<Vec<Option<String>>>)
        ensures
            final(self).plugins@.len() == old(self).plugins@.len(),
            r is Ok ==> r->Ok_0@.len() <= old(self).plugins@.len(),
            old(self).plugins@.len() == 0 ==> r is Ok && r->Ok_0@.len() == 0,
            r is Err ==> exists|detail: Seq<char>|
                r->Err_0.message@ == dispatch_error_message("vc_zkp_create_credential_definition"@, method@, detail),
    {
        let task_name = "vc_zkp_create_credential_definition";
        let mut outcomes: Vec<VadeResult<VadePluginResultValue<Option<String>>>> = Vec::new();
        let mut i: usize = 0;
        while i < self.plugins.len()
            invariant
                i <= self.plugins@.len(),
                self.plugins@.len() == old(self).plugins@.len(),
                outcomes@.len() == i,
            decreases self.plugins@.len() - i,
        {
            let outcome = self.plugins[i].vc_zkp_create_credential_definition(method, options, payload);
            outcomes.push(outcome);
            i += 1;
        }
        proof {
            lemma_collect_all_len_bound(outcomes@);
        }
        collect_all_successes(task_name, method, outcomes)
    }

    /// Creates a new zero-knowledge proof credential offer. This message is
    /// the response to a credential proposal.
    ///
    /// Collect-all-successes dispatch over every registered plugin.
    ///
    /// # Arguments
    ///
    /// * `method` - method to address (e.g. "did:example")
    /// * `options` - options string supporting the request (e.g. authentication data)
    /// * `payload` - payload string with information for the request (e.g. actual data to write)
    #[verifier::loop_isolation(false)]
    pub fn vc_zkp_create_credential_offer(
        &mut self,
        method: &str,
        options: &str,
        payload: &str,
    ) -> (r: VadeResult<Vec<Option<String>>>)
        ensures
            final(self).plugins@.len() == old(self).plugins@.len(),
            r is Ok ==> r->Ok_0@.len() <= old(self).plugins@.len(),
            old(self).plugins@.len() == 0 ==> r is Ok && r->Ok_0@.len() == 0,
            r is Err ==> exists|detail: Seq<char>|
                r->Err_0.message@ == dispatch_error_message("vc_zkp_create_credential_offer"@, method@, detail),
    {
        let task_name = "vc_zkp_create_credential_offer";
        let mut outcomes: Vec<VadeResult<VadePluginResultValue<Option<String>>>> = Vec::new();
        let mut i: usize = 0;
        while i < self.plugins.len()
            invariant
                i <= self.plugins@.len(),
                self.plugins@.len() == old(self).plugins@.len(),
                outcomes@.len() == i,
            decreases self.plugins@.len() - i,
        {
            let outcome = self.plugins[i].vc_zkp_create_credential_offer(method, options, payload);
            outcomes.push(outcome);
            i += 1;
        }
        proof {
            lemma_collect_all_len_bound(outcomes@);
        }
        collect_all_successes(task_name, method, outcomes)
    }

    /// Creates a new zero-knowledge proof credential proposal. This message
    /// is the first in the credential issuance flow.
    ///
    /// Collect-all-successes dispatch over every registered plugin.
    ///
    /// # Arguments
    ///
    /// * `method` - method to address (e.g. "did:example")
    /// * `options` - options string supporting the request (e.g. authentication data)
    /// * `payload` - payload string with information for the request (e.g. actual data to write)
    #[verifier::loop_isolation(false)]
    pub fn vc_zkp_create_credential_proposal(
        &mut self,
        method: &str,
        options: &str,
        payload: &str,
    ) -> (r: VadeResult<Vec<Option<String>>>)
        ensures
            final(self).plugins@.len() == old(self).plugins@.len(),
            r is Ok ==> r->Ok_0@.len() <= old(self).plugins@.len(),
            old(self).plugins@.len() == 0 ==> r is Ok && r->Ok_0@.len() == 0,
            r is Err ==> exists|detail: Seq<char>|
                r->Err_0.message@ == dispatch_error_message("vc_zkp_create_credential_proposal"@, method@, detail),
    {
        let task_name = "vc_zkp_create_credential_proposal";
        let mut outcomes: Vec<VadeResult<VadePluginResultValue<Option<String>>>> = Vec::new();
        let mut i: usize = 0;
        while i < self.plugins.len()
            invariant
                i <= self.plugins@.len(),
                self.plugins@.len() == old(self).plugins@.len(),
                outcomes@.len() == i,
            decreases self.plugins@.len() - i,
        {
            let outcome = self.plugins[i].vc_zkp_create_credential_proposal(method, options, payload);
            outcomes.push(outcome);
            i += 1;
        }
        proof {
            lemma_collect_all_len_bound(outcomes@);
        }
        collect_all_successes(task_name, method, outcomes)
    }

    /// Creates a new zero-knowledge proof credential schema specifying the
    /// properties a credential includes, both optional and mandatory.
    ///
    /// Collect-all-successes dispatch over every registered plugin.
    ///
    /// # Arguments
    ///
    /// * `method` - method to address (e.g. "did:example")
    /// * `options` - options string supporting the request (e.g. authentication data)
    /// * `payload` - payload string with information for the request (e.g. actual data to write)
    #[verifier::loop_isolation(false)]
    pub fn vc_zkp_create_credential_schema(
        &mut self,
        method: &str,
        options: &str,
        payload: &str,
    ) -> (r: VadeResult<Vec<Option<String>>>)
        ensures
            final(self).plugins@.len() == old(self).plugins@.len(),
            r is Ok ==> r->Ok_0@.len() <= old(self).plugins@.len(),
            old(self).plugins@.len() == 0 ==> r is Ok && r->Ok_0@.len() == 0,
            r is Err ==> exists|detail: Seq<char>|
                r->Err_0.message@ == dispatch_error_message("vc_zkp_create_credential_schema"@, method@, detail),
    {
        let task_name = "vc_zkp_create_credential_schema";
        let mut outcomes: Vec<VadeResult<VadePluginResultValue<Option<String>>>> = Vec::new();
        let mut i: usize = 0;
        while i < self.plugins.len()
            invariant
                i <= self.plugins@.len(),
                self.plugins@.len() == old(self).plugins@.len(),
                outcomes@.len() == i,
            decreases self.plugins@.len() - i,
        {
            let outcome = self.plugins[i].vc_zkp_create_credential_schema(method, options, payload);
            outcomes.push(outcome);
            i += 1;
        }
        proof {
            lemma_collect_all_len_bound(outcomes@);
        }
        collect_all_successes(task_name, method, outcomes)
    }

    /// Creates a new revocation registry definition. The public part holds
    /// the cryptographic material needed to create non-revocation proofs; the
    /// private part resides with the registry owner and is used to revoke
    /// credentials.
    ///
    /// Collect-all-successes dispatch over every registered plugin.
    ///
    /// # Arguments
    ///
    /// * `method` - method to address (e.g. "did:example")
    /// * `options` - options string supporting the request (e.g. authentication data)
    /// * `payload` - payload string with information for the request (e.g. actual data to write)
    #[verifier::loop_isolation(false)]
    pub fn vc_zkp_create_revocation_registry_definition(
        &mut self,
        method: &str,
        options: &str,
        payload: &str,
    ) -> (r: VadeResult<Vec<Option<String>>>)
        ensures
            final(self).plugins@.len() == old(self).plugins@.len(),
            r is Ok ==> r->Ok_0@.len() <= old(self).plugins@.len(),
            old(self).plugins@.len() == 0 ==> r is Ok && r->Ok_0@.len() == 0,
            r is Err ==> exists|detail: Seq<char>|
                r->Err_0.message@ == dispatch_error_message("vc_zkp_create_revocation_registry_definition"@, method@, detail),
    {
        let task_name = "vc_zkp_create_revocation_registry_definition";
        let mut outcomes: Vec<VadeResult<VadePluginResultValue<Option<String>>>> = Vec::new();
        let mut i: usize = 0;
        while i < self.plugins.len()
            invariant
                i <= self.plugins@.len(),
                self.plugins@.len() == old(self).plugins@.len(),
                outcomes@.len() == i,
            decreases self.plugins@.len() - i,
        {
            let outcome = self.plugins[i].vc_zkp_create_revocation_registry_definition(method, options, payload);
            outcomes.push(outcome);
            i += 1;
        }
        proof {
            lemma_collect_all_len_bound(outcomes@);
        }
        collect_all_successes(task_name, method, outcomes)
    }

    /// Updates a revocation registry for a zero-knowledge proof. This step is
    /// necessary after revoking one or more credentials.
    ///
    /// Collect-all-successes dispatch over every registered plugin.
    ///
    /// # Arguments
    ///
    /// * `method` - method to address (e.g. "did:example")
    /// * `options` - options string supporting the request (e.g. authentication data)
    /// * `payload` - payload string with information for the request (e.g. actual data to write)
    #[verifier::loop_isolation(false)]
    pub fn vc_zkp_update_revocation_registry(
        &mut self,
        method: &str,
        options: &str,
        payload: &str,
    ) -> (r: VadeResult<Vec<Option<String>>>)
        ensures
            final(self).plugins@.len() == old(self).plugins@.len(),
            r is Ok ==> r->Ok_0@.len() <= old(self).plugins@.len(),
            old(self).plugins@.len() == 0 ==> r is Ok && r->Ok_0@.len() == 0,
            r is Err ==> exists|detail: Seq<char>|
                r->Err_0.message@ == dispatch_error_message("vc_zkp_update_revocation_registry"@, method@, detail),
    {
        let task_name = "vc_zkp_update_revocation_registry";
        let mut outcomes: Vec<VadeResult<VadePluginResultValue<Option<String>>>> = Vec::new();
        let mut i: usize = 0;
        while i < self.plugins.len()
            invariant
                i <= self.plugins@.len(),
                self.plugins@.len() == old(self).plugins@.len(),
                outcomes@.len() == i,
            decreases self.plugins@.len() - i,
        {
            let outcome = self.plugins[i].vc_zkp_update_revocation_registry(method, options, payload);
            outcomes.push(outcome);
            i += 1;
        }
        proof {
            lemma_collect_all_len_bound(outcomes@);
        }
        collect_all_successes(task_name, method, outcomes)
    }

    /// Issues a new credential. This requires an issued schema, a credential
    /// definition, an active revocation registry and a credential request
    /// message.
    ///
    /// Collect-all-successes dispatch over every registered plugin.
    ///
    /// # Arguments
    ///
    /// * `method` - method to address (e.g. "did:example")
    /// * `options` - options string supporting the request (e.g. authentication data)
    /// * `payload` - payload string with information for the request (e.g. actual data to write)
    #[verifier::loop_isolation(false)]
    pub fn vc_zkp_issue_credential(
        &mut self,
        method: &str,
        options: &str,
        payload: &str,
    ) -> (r: VadeResult<Vec<Option<String>>>)
        ensures
            final(self).plugins@.len() == old(self).plugins@.len(),
            r is Ok ==> r->Ok_0@.len() <= old(self).plugins@.len(),
            old(self).plugins@.len() == 0 ==> r is Ok && r->Ok_0@.len() == 0,
            r is Err ==> exists|detail: Seq<char>|
                r->Err_0.message@ == dispatch_error_message("vc_zkp_issue_credential"@, method@, detail),
    {
        let task_name = "vc_zkp_issue_credential";
        let mut outcomes: Vec<VadeResult<VadePluginResultValue<Option<String>>>> = Vec::new();
        let mut i: usize = 0;
        while i < self.plugins.len()
            invariant
                i <= self.plugins@.len(),
                self.plugins@.len() == old(self).plugins@.len(),
                outcomes@.len() == i,
            decreases self.plugins@.len() - i,
        {
            let outcome = self.plugins[i].vc_zkp_issue_credential(method, options, payload);
            outcomes.push(outcome);
            i += 1;
        }
        proof {
            lemma_collect_all_len_bound(outcomes@);
        }
        collect_all_successes(task_name, method, outcomes)
    }

    /// Finishes a credential, e.g. by incorporating the prover's master
    /// secret into the credential signature after issuance.
    ///
    /// Collect-all-successes dispatch over every registered plugin.
    ///
    /// # Arguments
    ///
    /// * `method` - method to address (e.g. "did:example")
    /// * `options` - options string supporting the request (e.g. authentication data)
    /// * `payload` - payload string with information for the request (e.g. actual data to write)
    #[verifier::loop_isolation(false)]
    pub fn vc_zkp_finish_credential(
        &mut self,
        method: &str,
        options: &str,
        payload: &str,
    ) -> (r: VadeResult<Vec<Option<String>>>)
        ensures
            final(self).plugins@.len() == old(self).plugins@.len(),
            r is Ok ==> r->Ok_0@.len() <= old(self).plugins@.len(),
            old(self).plugins@.len() == 0 ==> r is Ok && r->Ok_0@.len() == 0,
            r is Err ==> exists|detail: Seq<char>|
                r->Err_0.message@ == dispatch_error_message("vc_zkp_finish_credential"@, method@, detail),
    {
        let task_name = "vc_zkp_finish_credential";
        let mut outcomes: Vec<VadeResult<VadePluginResultValue<Option<String>>>> = Vec::new();
        let mut i: usize = 0;
        while i < self.plugins.len()
            invariant
                i <= self.plugins@.len(),
                self.plugins@.len() == old(self).plugins@.len(),
                outcomes@.len() == i,
            decreases self.plugins@.len() - i,
        {
            let outcome = self.plugins[i].vc_zkp_finish_credential(method, options, payload);
            outcomes.push(outcome);
            i += 1;
        }
        proof {
            lemma_collect_all_len_bound(outcomes@);
        }
        collect_all_successes(task_name, method, outcomes)
    }

    /// Presents a proof for a zero-knowledge proof credential. A proof
    /// presentation is the response to a proof request.
    ///
    /// Collect-all-successes dispatch over every registered plugin.
    ///
    /// # Arguments
    ///
    /// * `method` - method to address (e.g. "did:example")
    /// * `options` - options string supporting the request (e.g. authentication data)
    /// * `payload` - payload string with information for the request (e.g. actual data to write)
    #[verifier::loop_isolation(false)]
    pub fn vc_zkp_present_proof(
        &mut self,
        method: &str,
        options: &str,
        payload: &str,
    ) -> (r: VadeResult<Vec<Option<String>>>)
        ensures
            final(self).plugins@.len() == old(self).plugins@.len(),
            r is Ok ==> r->Ok_0@.len() <= old(self).plugins@.len(),
            old(self).plugins@.len() == 0 ==> r is Ok && r->Ok_0@.len() == 0,
            r is Err ==> exists|detail: Seq<char>|
                r->Err_0.message@ == dispatch_error_message("vc_zkp_present_proof"@, method@, detail),
    {
        let task_name = "vc_zkp_present_proof";
        let mut outcomes: Vec<VadeResult<VadePluginResultValue<Option<String>>>> = Vec::new();
        let mut i: usize = 0;
        while i < self.plugins.len()
            invariant
                i <= self.plugins@.len(),
                self.plugins@.len() == old(self).plugins@.len(),
                outcomes@.len() == i,
            decreases self.plugins@.len() - i,
        {
            let outcome = self.plugins[i].vc_zkp_present_proof(method, options, payload);
            outcomes.push(outcome);
            i += 1;
        }
        proof {
            lemma_collect_all_len_bound(outcomes@);
        }
        collect_all_successes(task_name, method, outcomes)
    }

    /// Requests a credential. This message is the response to a credential
    /// offering.
    ///
    /// Collect-all-successes dispatch over every registered plugin.
    ///
    /// # Arguments
    ///
    /// * `method` - method to address (e.g. "did:example")
    /// * `options` - options string supporting the request (e.g. authentication data)
    /// * `payload` - payload string with information for the request (e.g. actual data to write)
    #[verifier::loop_isolation(false)]
    pub fn vc_zkp_request_credential(
        &mut self,
        method: &str,
        options: &str,
        payload: &str,
    ) -> (r: VadeResult<Vec<Option<String>>>)
        ensures
            final(self).plugins@.len() == old(self).plugins@.len(),
            r is Ok ==> r->Ok_0@.len() <= old(self).plugins@.len(),
            old(self).plugins@.len() == 0 ==> r is Ok && r->Ok_0@.len() == 0,
            r is Err ==> exists|detail: Seq<char>|
                r->Err_0.message@ == dispatch_error_message("vc_zkp_request_credential"@, method@, detail),
    {
        let task_name = "vc_zkp_request_credential";
        let mut outcomes: Vec<VadeResult<VadePluginResultValue<Option<String>>>> = Vec::new();
        let mut i: usize = 0;
        while i < self.plugins.len()
            invariant
                i <= self.plugins@.len(),
                self.plugins@.len() == old(self).plugins@.len(),
                outcomes@.len() == i,
            decreases self.plugins@.len() - i,
        {
            let outcome = self.plugins[i].vc_zkp_request_credential(method, options, payload);
            outcomes.push(outcome);
            i += 1;
        }
        proof {
            lemma_collect_all_len_bound(outcomes@);
        }
        collect_all_successes(task_name, method, outcomes)
    }

    /// Requests a zero-knowledge proof for one or more credentials issued
    /// under one or more specific schemas.
    ///
    /// Collect-all-successes dispatch over every registered plugin.
    ///
    /// # Arguments
    ///
    /// * `method` - method to address (e.g. "did:example")
    /// * `options` - options string supporting the request (e.g. authentication data)
    /// * `payload` - payload string with information for the request (e.g. actual data to write)
    #[verifier::loop_isolation(false)]
    pub fn vc_zkp_request_proof(
        &mut self,
        method: &str,
        options: &str,
        payload: &str,
    ) -> (r: VadeResult<Vec<Option<String>>>)
        ensures
            final(self).plugins@.len() == old(self).plugins@.len(),
            r is Ok ==> r->Ok_0@.len() <= old(self).plugins@.len(),
            old(self).plugins@.len() == 0 ==> r is Ok && r->Ok_0@.len() == 0,
            r is Err ==> exists|detail: Seq<char>|
                r->Err_0.message@ == dispatch_error_message("vc_zkp_request_proof"@, method@, detail),
    {
        let task_name = "vc_zkp_request_proof";
        let mut outcomes: Vec<VadeResult<VadePluginResultValue<Option<String>>>> = Vec::new();
        let mut i: usize = 0;
        while i < self.plugins.len()
            invariant
                i <= self.plugins@.len(),
                self.plugins@.len() == old(self).plugins@.len(),
                outcomes@.len() == i,
            decreases self.plugins@.len() - i,
        {
            let outcome = self.plugins[i].vc_zkp_request_proof(method, options, payload);
            outcomes.push(outcome);
            i += 1;
        }
        proof {
            lemma_collect_all_len_bound(outcomes@);
        }
        collect_all_successes(task_name, method, outcomes)
    }

    /// Revokes a credential. After revocation the published revocation
    /// registry needs to be updated with information returned by this
    /// function.
    ///
    /// Collect-all-successes dispatch over every registered plugin.
    ///
    /// # Arguments
    ///
    /// * `method` - method to address (e.g. "did:example")
    /// * `options` - options string supporting the request (e.g. authentication data)
    /// * `payload` - payload string with information for the request (e.g. actual data to write)
    #[verifier::loop_isolation(false)]
    pub fn vc_zkp_revoke_credential(
        &mut self,
        method: &str,
        options: &str,
        payload: &str,
    ) -> (r: VadeResult<Vec<Option<String>>>)
        ensures
            final(self).plugins@.len() == old(self).plugins@.len(),
            r is Ok ==> r->Ok_0@.len() <= old(self).plugins@.len(),
            old(self).plugins@.len() == 0 ==> r is Ok && r->Ok_0@.len() == 0,
            r is Err ==> exists|detail: Seq<char>|
                r->Err_0.message@ == dispatch_error_message("vc_zkp_revoke_credential"@, method@, detail),
    {
        let task_name = "vc_zkp_revoke_credential";
        let mut outcomes: Vec<VadeResult<VadePluginResultValue<Option<String>>>> = Vec::new();
        let mut i: usize = 0;
        while i < self.plugins.len()
            invariant
                i <= self.plugins@.len(),
                self.plugins@.len() == old(self).plugins@.len(),
                outcomes@.len() == i,
            decreases self.plugins@.len() - i,
        {
            let outcome = self.plugins[i].vc_zkp_revoke_credential(method, options, payload);
            outcomes.push(outcome);
            i += 1;
        }
        proof {
            lemma_collect_all_len_bound(outcomes@);
        }
        collect_all_successes(task_name, method, outcomes)
    }

    /// Verifies one or multiple proofs sent in a proof presentation.
    ///
    /// Collect-all-successes dispatch over every registered plugin.
    ///
    /// # Arguments
    ///
    /// * `method` - method to address (e.g. "did:example")
    /// * `options` - options string supporting the request (e.g. authentication data)
    /// * `payload` - payload string with information for the request (e.g. actual data to write)
    #[verifier::loop_isolation(false)]
    pub fn vc_zkp_verify_proof(
        &mut self,
        method: &str,
        options: &str,
        payload: &str,
    ) -> (r: VadeResult<Vec<Option<String>>>)
        ensures
            final(self).plugins@.len() == old(self).plugins@.len(),
            r is Ok ==> r->Ok_0@.len() <= old(self).plugins@.len(),
            old(self).plugins@.len() == 0 ==> r is Ok && r->Ok_0@.len() == 0,
            r is Err ==> exists|detail: Seq<char>|
                r->Err_0.message@ == dispatch_error_message("vc_zkp_verify_proof"@, method@, detail),
    {
        let task_name = "vc_zkp_verify_proof";
        let mut outcomes: Vec<VadeResult<VadePluginResultValue<Option<String>>>> = Vec::new();
        let mut i: usize = 0;
        while i < self.plugins.len()
            invariant
                i <= self.plugins@.len(),
                self.plugins@.len() == old(self).plugins@.len(),
                outcomes@.len() == i,
            decreases self.plugins@.len() - i,
        {
            let outcome = self.plugins[i].vc_zkp_verify_proof(method, options, payload);
            outcomes.push(outcome);
            i += 1;
        }
        proof {
            lemma_collect_all_len_bound(outcomes@);
        }
        collect_all_successes(task_name, method, outcomes)
    }
}

impl<P: VadePlugin> Default for Vade<P> {
    /// A default `Vade` instance: an empty registry.
    fn default() -> (v: Vade<P>)
        ensures
            v.plugins@ == Seq::<P>::empty(),
    {
        Vade::new()
    }
}

} // verus!
