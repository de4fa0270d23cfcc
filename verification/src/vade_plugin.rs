//! The capability interface satisfied by every handler ("plugin").
//!
//! A plugin implements some subset of the named operations of [`VadePlugin`];
//! every operation it does not override answers
//! [`VadePluginResultValue::NotImplemented`], so partial-capability plugins
//! need no boilerplate. Each operation call yields exactly one of the three
//! [`VadePluginResultValue`] variants, or raises a hard [`VadeError`].

use crate::error::{VadeError, VadeResult};
use vstd::prelude::*;

verus! {

/// Wrapper enum for a plugin's return value.
pub enum VadePluginResultValue<T> {
    /// Plugin does not implement this operation.
    NotImplemented,
    /// Plugin implements the operation but declines this particular request,
    /// e.g. because it does not cater to the requested method or target.
    Ignored,
    /// Plugin handled the request and returned a value of type `T`.
    Success(T),
}

impl<T> VadePluginResultValue<T> {
    /// Unwraps the value carried by a `Success` variant.
    ///
    /// The caller must know the plugin handled the request: the other two
    /// variants carry nothing to unwrap.
    pub fn unwrap(self) -> (t: T)
        requires
            self is Success,
        ensures
            self == VadePluginResultValue::Success(t),
    {
        match self {
            VadePluginResultValue::Success(val) => val,
            VadePluginResultValue::NotImplemented => unreached(),
            VadePluginResultValue::Ignored => unreached(),
        }
    }
}

/// The family of named operations a handler may support.
///
/// [`crate::Vade`] delegates each call of a plugin-related function to the
/// function with the same name on every registered plugin and folds the
/// outcomes (see [`crate::aggregation`]). Every operation takes an operation
/// target (a method identifier or a subject/credential identifier), an opaque
/// options string (e.g. authentication data) and an opaque payload string,
/// and defaults to `NotImplemented`.
///
/// Nothing is promised about an implementation's behaviour: plugins are
/// external collaborators, and the dispatcher states only what holds of its
/// own folding, whatever a plugin answered.
pub trait VadePlugin {
    /// Creates a new DID; may also persist a DID document for it.
    fn did_create(
        &mut self,
        did_method: &str,
        options: &str,
        payload: &str,
    ) -> VadeResult<VadePluginResultValue<Option<String>>> {
        Ok(VadePluginResultValue::NotImplemented)
    }

    /// Fetches data about a DID; usually returns a DID document.
    fn did_resolve(&mut self, did: &str) -> VadeResult<VadePluginResultValue<Option<String>>> {
        Ok(VadePluginResultValue::NotImplemented)
    }

    /// Updates data related to a DID.
    fn did_update(
        &mut self,
        did: &str,
        options: &str,
        payload: &str,
    ) -> VadeResult<VadePluginResultValue<Option<String>>> {
        Ok(VadePluginResultValue::NotImplemented)
    }

    /// Processes a DIDComm message as received and may prepare a response.
    fn didcomm_receive(
        &mut self,
        options: &str,
        payload: &str,
    ) -> VadeResult<VadePluginResultValue<Option<String>>> {
        Ok(VadePluginResultValue::NotImplemented)
    }

    /// Processes a DIDComm message and prepares it for sending.
    fn didcomm_send(
        &mut self,
        options: &str,
        payload: &str,
    ) -> VadeResult<VadePluginResultValue<Option<String>>> {
        Ok(VadePluginResultValue::NotImplemented)
    }

    /// Runs a custom function outside the fixed operation set.
    fn run_custom_function(
        &mut self,
        method: &str,
        function: &str,
        options: &str,
        payload: &str,
    ) -> VadeResult<VadePluginResultValue<Option<String>>> {
        Ok(VadePluginResultValue::NotImplemented)
    }

    /// Creates a new zero-knowledge proof credential definition.
    fn vc_zkp_create_credential_definition(
        &mut self,
        did_method: &str,
        options: &str,
        payload: &str,
    ) -> VadeResult<VadePluginResultValue<Option<String>>> {
        Ok(VadePluginResultValue::NotImplemented)
    }

    /// Creates a `CredentialOffer` message.
    fn vc_zkp_create_credential_offer(
        &mut self,
        method: &str,
        options: &str,
        payload: &str,
    ) -> VadeResult<VadePluginResultValue<Option<String>>> {
        Ok(VadePluginResultValue::NotImplemented)
    }

    /// Creates a `CredentialProposal` message.
    fn vc_zkp_create_credential_proposal(
        &mut self,
        method: &str,
        options: &str,
        payload: &str,
    ) -> VadeResult<VadePluginResultValue<Option<String>>> {
        Ok(VadePluginResultValue::NotImplemented)
    }

    /// Creates a new zero-knowledge proof credential schema.
    fn vc_zkp_create_credential_schema(
        &mut self,
        method: &str,
        options: &str,
        payload: &str,
    ) -> VadeResult<VadePluginResultValue<Option<String>>> {
        Ok(VadePluginResultValue::NotImplemented)
    }

    /// Creates a new revocation registry definition.
    fn vc_zkp_create_revocation_registry_definition(
        &mut self,
        method: &str,
        options: &str,
        payload: &str,
    ) -> VadeResult<VadePluginResultValue<Option<String>>> {
        Ok(VadePluginResultValue::NotImplemented)
    }

    /// Updates a revocation registry after one or more revocations.
    fn vc_zkp_update_revocation_registry(
        &mut self,
        method: &str,
        options: &str,
        payload: &str,
    ) -> VadeResult<VadePluginResultValue<Option<String>>> {
        Ok(VadePluginResultValue::NotImplemented)
    }

    /// Issues a new credential.
    fn vc_zkp_issue_credential(
        &mut self,
        method: &str,
        options: &str,
        payload: &str,
    ) -> VadeResult<VadePluginResultValue<Option<String>>> {
        Ok(VadePluginResultValue::NotImplemented)
    }

    /// Finishes a credential after issuance.
    fn vc_zkp_finish_credential(
        &mut self,
        method: &str,
        options: &str,
        payload: &str,
    ) -> VadeResult<VadePluginResultValue<Option<String>>> {
        Ok(VadePluginResultValue::NotImplemented)
    }

    /// Presents a proof for a credential, answering a proof request.
    fn vc_zkp_present_proof(
        &mut self,
        method: &str,
        options: &str,
        payload: &str,
    ) -> VadeResult<VadePluginResultValue<Option<String>>> {
        Ok(VadePluginResultValue::NotImplemented)
    }

    /// Requests a credential, answering a credential offer.
    fn vc_zkp_request_credential(
        &mut self,
        method: &str,
        options: &str,
        payload: &str,
    ) -> VadeResult<VadePluginResultValue<Option<String>>> {
        Ok(VadePluginResultValue::NotImplemented)
    }

    /// Requests a zero-knowledge proof for one or more credentials.
    fn vc_zkp_request_proof(
        &mut self,
        method: &str,
        options: &str,
        payload: &str,
    ) -> VadeResult<VadePluginResultValue<Option<String>>> {
        Ok(VadePluginResultValue::NotImplemented)
    }

    /// Revokes a credential.
    fn vc_zkp_revoke_credential(
        &mut self,
        method: &str,
        options: &str,
        payload: &str,
    ) -> VadeResult<VadePluginResultValue<Option<String>>> {
        Ok(VadePluginResultValue::NotImplemented)
    }

    /// Verifies one or multiple proofs sent in a proof presentation.
    fn vc_zkp_verify_proof(
        &mut self,
        method: &str,
        options: &str,
        payload: &str,
    ) -> VadeResult<VadePluginResultValue<Option<String>>> {
        Ok(VadePluginResultValue::NotImplemented)
    }
}

} // verus!
