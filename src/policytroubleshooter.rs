//! Client of the IAM Policy Troubleshooter API.
use crate::request::{share, RequestBuilder};
use std::sync::Arc;
use vstd::prelude::*;

verus! {

/// The request message of `troubleshoot_iam_policy`; its fields are filled in by the caller.
pub struct TroubleshootIamPolicyRequest {}

/// The builder that `troubleshoot_iam_policy` returns.
pub type TroubleshootIamPolicy<S> = RequestBuilder<S, TroubleshootIamPolicyRequest>;

/// Client of the IAM policy troubleshooter: explains why a principal has a
/// permission on a resource, or why not.
///
/// Requests go through a stub of type `S`, shared by the client and the
/// builders it makes.
pub struct IamChecker<S> {
    inner: Arc<S>,
}

impl<S> IamChecker<S> {
    /// The stub through which the client sends its requests.
    pub closed spec fn stub_spec(&self) -> Arc<S> {
        self.inner
    }

    /// Creates a client that sends its requests through `stub`.
    pub fn from_stub(stub: S) -> (r: Self)
        ensures
            *r.stub_spec() == stub,
    {
        IamChecker { inner: Arc::new(stub) }
    }

    /// Checks whether a principal has a permission on a resource, and explains why.
    pub fn troubleshoot_iam_policy(&self) -> (r: TroubleshootIamPolicy<S>)
        ensures
            r.stub_spec() == self.stub_spec(),
            r.request_spec() == (TroubleshootIamPolicyRequest {}),
            r.options_spec().attempt_timeout_spec() is None,
    {
        RequestBuilder::new(share(&self.inner), TroubleshootIamPolicyRequest {})
    }
}

} // verus!
