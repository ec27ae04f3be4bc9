//! Clients of the IAM v3 API: policy bindings and principal access boundary policies.
use crate::request::{share, RequestBuilder};
use std::sync::Arc;
use vstd::prelude::*;

verus! {

/// The request message of `create_policy_binding`.
pub struct CreatePolicyBindingRequest {
    pub parent: String,
}

/// The builder that `create_policy_binding` returns.
pub type CreatePolicyBinding<S> = RequestBuilder<S, CreatePolicyBindingRequest>;

/// The request message of `get_policy_binding`.
pub struct GetPolicyBindingRequest {
    pub name: String,
}

/// The builder that `get_policy_binding` returns.
pub type GetPolicyBinding<S> = RequestBuilder<S, GetPolicyBindingRequest>;

/// The request message of `update_policy_binding`; `M` is the message that it carries.
pub struct UpdatePolicyBindingRequest<M> {
    pub policy_binding: Option<M>,
}

/// The builder that `update_policy_binding` returns.
pub type UpdatePolicyBinding<S, M> = RequestBuilder<S, UpdatePolicyBindingRequest<M>>;

/// The request message of `delete_policy_binding`.
pub struct DeletePolicyBindingRequest {
    pub name: String,
}

/// The builder that `delete_policy_binding` returns.
pub type DeletePolicyBinding<S> = RequestBuilder<S, DeletePolicyBindingRequest>;

/// The request message of `list_policy_bindings`.
pub struct ListPolicyBindingsRequest {
    pub parent: String,
}

/// The builder that `list_policy_bindings` returns.
pub type ListPolicyBindings<S> = RequestBuilder<S, ListPolicyBindingsRequest>;

/// The request message of `search_target_policy_bindings`.
pub struct SearchTargetPolicyBindingsRequest {
    pub parent: String,
}

/// The builder that `search_target_policy_bindings` returns.
pub type SearchTargetPolicyBindings<S> = RequestBuilder<S, SearchTargetPolicyBindingsRequest>;

/// The request message of `get_operation`.
pub struct GetOperationRequest {
    pub name: String,
}

/// The builder that `get_operation` returns.
pub type GetOperation<S> = RequestBuilder<S, GetOperationRequest>;

/// The request message of `create_principal_access_boundary_policy`.
pub struct CreatePrincipalAccessBoundaryPolicyRequest {
    pub parent: String,
}

/// The builder that `create_principal_access_boundary_policy` returns.
pub type CreatePrincipalAccessBoundaryPolicy<S> = RequestBuilder<S, CreatePrincipalAccessBoundaryPolicyRequest>;

/// The request message of `get_principal_access_boundary_policy`.
pub struct GetPrincipalAccessBoundaryPolicyRequest {
    pub name: String,
}

/// The builder that `get_principal_access_boundary_policy` returns.
pub type GetPrincipalAccessBoundaryPolicy<S> = RequestBuilder<S, GetPrincipalAccessBoundaryPolicyRequest>;

/// The request message of `update_principal_access_boundary_policy`; `M` is the message that it carries.
pub struct UpdatePrincipalAccessBoundaryPolicyRequest<M> {
    pub principal_access_boundary_policy: Option<M>,
}

/// The builder that `update_principal_access_boundary_policy` returns.
pub type UpdatePrincipalAccessBoundaryPolicy<S, M> = RequestBuilder<S, UpdatePrincipalAccessBoundaryPolicyRequest<M>>;

/// The request message of `delete_principal_access_boundary_policy`.
pub struct DeletePrincipalAccessBoundaryPolicyRequest {
    pub name: String,
}

/// The builder that `delete_principal_access_boundary_policy` returns.
pub type DeletePrincipalAccessBoundaryPolicy<S> = RequestBuilder<S, DeletePrincipalAccessBoundaryPolicyRequest>;

/// The request message of `list_principal_access_boundary_policies`.
pub struct ListPrincipalAccessBoundaryPoliciesRequest {
    pub parent: String,
}

/// The builder that `list_principal_access_boundary_policies` returns.
pub type ListPrincipalAccessBoundaryPolicies<S> = RequestBuilder<S, ListPrincipalAccessBoundaryPoliciesRequest>;

/// The request message of `search_principal_access_boundary_policy_bindings`.
pub struct SearchPrincipalAccessBoundaryPolicyBindingsRequest {
    pub name: String,
}

/// The builder that `search_principal_access_boundary_policy_bindings` returns.
pub type SearchPrincipalAccessBoundaryPolicyBindings<S> = RequestBuilder<S, SearchPrincipalAccessBoundaryPolicyBindingsRequest>;

/// Client of the policy bindings service.
///
/// Requests go through a stub of type `S`, shared by the client and the
/// builders it makes.
pub struct PolicyBindings<S> {
    inner: Arc<S>,
}

impl<S> PolicyBindings<S> {
    /// The stub through which the client sends its requests.
    pub closed spec fn stub_spec(&self) -> Arc<S> {
        self.inner
    }

    /// Creates a client that sends its requests through `stub`.
    pub fn from_stub(stub: S) -> (r: Self)
        ensures
            *r.stub_spec() == stub,
    {
        PolicyBindings { inner: Arc::new(stub) }
    }

    /// Creates a policy binding under `parent`.
    pub fn create_policy_binding(&self, parent: String) -> (r: CreatePolicyBinding<S>)
        ensures
            r.stub_spec() == self.stub_spec(),
            r.request_spec() == (CreatePolicyBindingRequest { parent }),
            r.options_spec().attempt_timeout_spec() is None,
    {
        RequestBuilder::new(share(&self.inner), CreatePolicyBindingRequest { parent })
    }

    /// Gets a policy binding.
    pub fn get_policy_binding(&self, name: String) -> (r: GetPolicyBinding<S>)
        ensures
            r.stub_spec() == self.stub_spec(),
            r.request_spec() == (GetPolicyBindingRequest { name }),
            r.options_spec().attempt_timeout_spec() is None,
    {
        RequestBuilder::new(share(&self.inner), GetPolicyBindingRequest { name })
    }

    /// Updates a policy binding.
    pub fn update_policy_binding<M>(&self, policy_binding: M) -> (r: UpdatePolicyBinding<S, M>)
        ensures
            r.stub_spec() == self.stub_spec(),
            r.request_spec() == (UpdatePolicyBindingRequest { policy_binding: Some(policy_binding) }),
            r.options_spec().attempt_timeout_spec() is None,
    {
        RequestBuilder::new(share(&self.inner), UpdatePolicyBindingRequest { policy_binding: Some(policy_binding) })
    }

    /// Deletes a policy binding.
    pub fn delete_policy_binding(&self, name: String) -> (r: DeletePolicyBinding<S>)
        ensures
            r.stub_spec() == self.stub_spec(),
            r.request_spec() == (DeletePolicyBindingRequest { name }),
            r.options_spec().attempt_timeout_spec() is None,
    {
        RequestBuilder::new(share(&self.inner), DeletePolicyBindingRequest { name })
    }

    /// Lists the policy bindings under `parent`.
    pub fn list_policy_bindings(&self, parent: String) -> (r: ListPolicyBindings<S>)
        ensures
            r.stub_spec() == self.stub_spec(),
            r.request_spec() == (ListPolicyBindingsRequest { parent }),
            r.options_spec().attempt_timeout_spec() is None,
    {
        RequestBuilder::new(share(&self.inner), ListPolicyBindingsRequest { parent })
    }

    /// Searches the policy bindings of a target under `parent`.
    pub fn search_target_policy_bindings(&self, parent: String) -> (r: SearchTargetPolicyBindings<S>)
        ensures
            r.stub_spec() == self.stub_spec(),
            r.request_spec() == (SearchTargetPolicyBindingsRequest { parent }),
            r.options_spec().attempt_timeout_spec() is None,
    {
        RequestBuilder::new(share(&self.inner), SearchTargetPolicyBindingsRequest { parent })
    }

    /// Gets the latest state of a long-running operation.
    pub fn get_operation(&self, name: String) -> (r: GetOperation<S>)
        ensures
            r.stub_spec() == self.stub_spec(),
            r.request_spec() == (GetOperationRequest { name }),
            r.options_spec().attempt_timeout_spec() is None,
    {
        RequestBuilder::new(share(&self.inner), GetOperationRequest { name })
    }
}

/// Client of the principal access boundary policies service.
///
/// Requests go through a stub of type `S`, shared by the client and the
/// builders it makes.
pub struct PrincipalAccessBoundaryPolicies<S> {
    inner: Arc<S>,
}

impl<S> PrincipalAccessBoundaryPolicies<S> {
    /// The stub through which the client sends its requests.
    pub closed spec fn stub_spec(&self) -> Arc<S> {
        self.inner
    }

    /// Creates a client that sends its requests through `stub`.
    pub fn from_stub(stub: S) -> (r: Self)
        ensures
            *r.stub_spec() == stub,
    {
        PrincipalAccessBoundaryPolicies { inner: Arc::new(stub) }
    }

    /// Creates a principal access boundary policy under `parent`.
    pub fn create_principal_access_boundary_policy(&self, parent: String) -> (r: CreatePrincipalAccessBoundaryPolicy<S>)
        ensures
            r.stub_spec() == self.stub_spec(),
            r.request_spec() == (CreatePrincipalAccessBoundaryPolicyRequest { parent }),
            r.options_spec().attempt_timeout_spec() is None,
    {
        RequestBuilder::new(share(&self.inner), CreatePrincipalAccessBoundaryPolicyRequest { parent })
    }

    /// Gets a principal access boundary policy.
    pub fn get_principal_access_boundary_policy(&self, name: String) -> (r: GetPrincipalAccessBoundaryPolicy<S>)
        ensures
            r.stub_spec() == self.stub_spec(),
            r.request_spec() == (GetPrincipalAccessBoundaryPolicyRequest { name }),
            r.options_spec().attempt_timeout_spec() is None,
    {
        RequestBuilder::new(share(&self.inner), GetPrincipalAccessBoundaryPolicyRequest { name })
    }

    /// Updates a principal access boundary policy.
    pub fn update_principal_access_boundary_policy<M>(&self, principal_access_boundary_policy: M) -> (r: UpdatePrincipalAccessBoundaryPolicy<S, M>)
        ensures
            r.stub_spec() == self.stub_spec(),
            r.request_spec() == (UpdatePrincipalAccessBoundaryPolicyRequest { principal_access_boundary_policy: Some(principal_access_boundary_policy) }),
            r.options_spec().attempt_timeout_spec() is None,
    {
        RequestBuilder::new(share(&self.inner), UpdatePrincipalAccessBoundaryPolicyRequest { principal_access_boundary_policy: Some(principal_access_boundary_policy) })
    }

    /// Deletes a principal access boundary policy.
    pub fn delete_principal_access_boundary_policy(&self, name: String) -> (r: DeletePrincipalAccessBoundaryPolicy<S>)
        ensures
            r.stub_spec() == self.stub_spec(),
            r.request_spec() == (DeletePrincipalAccessBoundaryPolicyRequest { name }),
            r.options_spec().attempt_timeout_spec() is None,
    {
        RequestBuilder::new(share(&self.inner), DeletePrincipalAccessBoundaryPolicyRequest { name })
    }

    /// Lists the principal access boundary policies under `parent`.
    pub fn list_principal_access_boundary_policies(&self, parent: String) -> (r: ListPrincipalAccessBoundaryPolicies<S>)
        ensures
            r.stub_spec() == self.stub_spec(),
            r.request_spec() == (ListPrincipalAccessBoundaryPoliciesRequest { parent }),
            r.options_spec().attempt_timeout_spec() is None,
    {
        RequestBuilder::new(share(&self.inner), ListPrincipalAccessBoundaryPoliciesRequest { parent })
    }

    /// Lists the policy bindings that refer to a principal access boundary policy.
    pub fn search_principal_access_boundary_policy_bindings(&self, name: String) -> (r: SearchPrincipalAccessBoundaryPolicyBindings<S>)
        ensures
            r.stub_spec() == self.stub_spec(),
            r.request_spec() == (SearchPrincipalAccessBoundaryPolicyBindingsRequest { name }),
            r.options_spec().attempt_timeout_spec() is None,
    {
        RequestBuilder::new(share(&self.inner), SearchPrincipalAccessBoundaryPolicyBindingsRequest { name })
    }

    /// Gets the latest state of a long-running operation.
    pub fn get_operation(&self, name: String) -> (r: GetOperation<S>)
        ensures
            r.stub_spec() == self.stub_spec(),
            r.request_spec() == (GetOperationRequest { name }),
            r.options_spec().attempt_timeout_spec() is None,
    {
        RequestBuilder::new(share(&self.inner), GetOperationRequest { name })
    }
}

} // verus!
