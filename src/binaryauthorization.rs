//! Clients of the Binary Authorization API: admission policies and attestation authorities.
use crate::request::{share, RequestBuilder};
use std::sync::Arc;
use vstd::prelude::*;

verus! {

/// The request message of `get_policy`.
pub struct GetPolicyRequest {
    pub name: String,
}

/// The builder that `get_policy` returns.
pub type GetPolicy<S> = RequestBuilder<S, GetPolicyRequest>;

/// The request message of `update_policy`; `M` is the message that it carries.
pub struct UpdatePolicyRequest<M> {
    pub policy: Option<M>,
}

/// The builder that `update_policy` returns.
pub type UpdatePolicy<S, M> = RequestBuilder<S, UpdatePolicyRequest<M>>;

/// The request message of `create_attestor`.
pub struct CreateAttestorRequest {
    pub parent: String,
}

/// The builder that `create_attestor` returns.
pub type CreateAttestor<S> = RequestBuilder<S, CreateAttestorRequest>;

/// The request message of `get_attestor`.
pub struct GetAttestorRequest {
    pub name: String,
}

/// The builder that `get_attestor` returns.
pub type GetAttestor<S> = RequestBuilder<S, GetAttestorRequest>;

/// The request message of `update_attestor`; `M` is the message that it carries.
pub struct UpdateAttestorRequest<M> {
    pub attestor: Option<M>,
}

/// The builder that `update_attestor` returns.
pub type UpdateAttestor<S, M> = RequestBuilder<S, UpdateAttestorRequest<M>>;

/// The request message of `list_attestors`.
pub struct ListAttestorsRequest {
    pub parent: String,
}

/// The builder that `list_attestors` returns.
pub type ListAttestors<S> = RequestBuilder<S, ListAttestorsRequest>;

/// The request message of `delete_attestor`.
pub struct DeleteAttestorRequest {
    pub name: String,
}

/// The builder that `delete_attestor` returns.
pub type DeleteAttestor<S> = RequestBuilder<S, DeleteAttestorRequest>;

/// The request message of `get_system_policy`.
pub struct GetSystemPolicyRequest {
    pub name: String,
}

/// The builder that `get_system_policy` returns.
pub type GetSystemPolicy<S> = RequestBuilder<S, GetSystemPolicyRequest>;

/// The request message of `validate_attestation_occurrence`.
pub struct ValidateAttestationOccurrenceRequest {
    pub attestor: String,
}

/// The builder that `validate_attestation_occurrence` returns.
pub type ValidateAttestationOccurrence<S> = RequestBuilder<S, ValidateAttestationOccurrenceRequest>;

/// Client of the Binary Authorization management service: a project's admission
/// policy and the attestors that must attest to a container image.
///
/// Requests go through a stub of type `S`, shared by the client and the
/// builders it makes.
pub struct BinauthzManagementServiceV1<S> {
    inner: Arc<S>,
}

impl<S> BinauthzManagementServiceV1<S> {
    /// The stub through which the client sends its requests.
    pub closed spec fn stub_spec(&self) -> Arc<S> {
        self.inner
    }

    /// Creates a client that sends its requests through `stub`.
    pub fn from_stub(stub: S) -> (r: Self)
        ensures
            *r.stub_spec() == stub,
    {
        BinauthzManagementServiceV1 { inner: Arc::new(stub) }
    }

    /// Gets the policy of a project.
    pub fn get_policy(&self, name: String) -> (r: GetPolicy<S>)
        ensures
            r.stub_spec() == self.stub_spec(),
            r.request_spec() == (GetPolicyRequest { name }),
            r.options_spec().attempt_timeout_spec() is None,
    {
        RequestBuilder::new(share(&self.inner), GetPolicyRequest { name })
    }

    /// Creates or replaces the policy of a project, as a whole.
    pub fn update_policy<M>(&self, policy: M) -> (r: UpdatePolicy<S, M>)
        ensures
            r.stub_spec() == self.stub_spec(),
            r.request_spec() == (UpdatePolicyRequest { policy: Some(policy) }),
            r.options_spec().attempt_timeout_spec() is None,
    {
        RequestBuilder::new(share(&self.inner), UpdatePolicyRequest { policy: Some(policy) })
    }

    /// Creates an attestor under `parent`.
    pub fn create_attestor(&self, parent: String) -> (r: CreateAttestor<S>)
        ensures
            r.stub_spec() == self.stub_spec(),
            r.request_spec() == (CreateAttestorRequest { parent }),
            r.options_spec().attempt_timeout_spec() is None,
    {
        RequestBuilder::new(share(&self.inner), CreateAttestorRequest { parent })
    }

    /// Gets an attestor.
    pub fn get_attestor(&self, name: String) -> (r: GetAttestor<S>)
        ensures
            r.stub_spec() == self.stub_spec(),
            r.request_spec() == (GetAttestorRequest { name }),
            r.options_spec().attempt_timeout_spec() is None,
    {
        RequestBuilder::new(share(&self.inner), GetAttestorRequest { name })
    }

    /// Updates an attestor.
    pub fn update_attestor<M>(&self, attestor: M) -> (r: UpdateAttestor<S, M>)
        ensures
            r.stub_spec() == self.stub_spec(),
            r.request_spec() == (UpdateAttestorRequest { attestor: Some(attestor) }),
            r.options_spec().attempt_timeout_spec() is None,
    {
        RequestBuilder::new(share(&self.inner), UpdateAttestorRequest { attestor: Some(attestor) })
    }

    /// Lists the attestors under `parent`.
    pub fn list_attestors(&self, parent: String) -> (r: ListAttestors<S>)
        ensures
            r.stub_spec() == self.stub_spec(),
            r.request_spec() == (ListAttestorsRequest { parent }),
            r.options_spec().attempt_timeout_spec() is None,
    {
        RequestBuilder::new(share(&self.inner), ListAttestorsRequest { parent })
    }

    /// Deletes an attestor.
    pub fn delete_attestor(&self, name: String) -> (r: DeleteAttestor<S>)
        ensures
            r.stub_spec() == self.stub_spec(),
            r.request_spec() == (DeleteAttestorRequest { name }),
            r.options_spec().attempt_timeout_spec() is None,
    {
        RequestBuilder::new(share(&self.inner), DeleteAttestorRequest { name })
    }
}

/// Client of the Binary Authorization system policy service.
///
/// Requests go through a stub of type `S`, shared by the client and the
/// builders it makes.
pub struct SystemPolicyV1<S> {
    inner: Arc<S>,
}

impl<S> SystemPolicyV1<S> {
    /// The stub through which the client sends its requests.
    pub closed spec fn stub_spec(&self) -> Arc<S> {
        self.inner
    }

    /// Creates a client that sends its requests through `stub`.
    pub fn from_stub(stub: S) -> (r: Self)
        ensures
            *r.stub_spec() == stub,
    {
        SystemPolicyV1 { inner: Arc::new(stub) }
    }

    /// Gets the current system policy in a location.
    pub fn get_system_policy(&self, name: String) -> (r: GetSystemPolicy<S>)
        ensures
            r.stub_spec() == self.stub_spec(),
            r.request_spec() == (GetSystemPolicyRequest { name }),
            r.options_spec().attempt_timeout_spec() is None,
    {
        RequestBuilder::new(share(&self.inner), GetSystemPolicyRequest { name })
    }
}

/// Client of the Binary Authorization validation helper.
///
/// Requests go through a stub of type `S`, shared by the client and the
/// builders it makes.
pub struct ValidationHelperV1<S> {
    inner: Arc<S>,
}

impl<S> ValidationHelperV1<S> {
    /// The stub through which the client sends its requests.
    pub closed spec fn stub_spec(&self) -> Arc<S> {
        self.inner
    }

    /// Creates a client that sends its requests through `stub`.
    pub fn from_stub(stub: S) -> (r: Self)
        ensures
            *r.stub_spec() == stub,
    {
        ValidationHelperV1 { inner: Arc::new(stub) }
    }

    /// Checks whether an attestation occurrence is valid for `attestor`.
    pub fn validate_attestation_occurrence(&self, attestor: String) -> (r: ValidateAttestationOccurrence<S>)
        ensures
            r.stub_spec() == self.stub_spec(),
            r.request_spec() == (ValidateAttestationOccurrenceRequest { attestor }),
            r.options_spec().attempt_timeout_spec() is None,
    {
        RequestBuilder::new(share(&self.inner), ValidateAttestationOccurrenceRequest { attestor })
    }
}

} // verus!
