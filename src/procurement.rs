//! Clients of the Cloud Commerce consumer procurement API: orders and license pools.
use crate::request::{share, RequestBuilder};
use std::sync::Arc;
use vstd::prelude::*;

verus! {

/// The request message of `get_license_pool`.
pub struct GetLicensePoolRequest {
    pub name: String,
}

/// The builder that `get_license_pool` returns.
pub type GetLicensePool<S> = RequestBuilder<S, GetLicensePoolRequest>;

/// The request message of `update_license_pool`; `M` is the message that it carries.
pub struct UpdateLicensePoolRequest<M> {
    pub license_pool: Option<M>,
}

/// The builder that `update_license_pool` returns.
pub type UpdateLicensePool<S, M> = RequestBuilder<S, UpdateLicensePoolRequest<M>>;

/// The request message of `assign`.
pub struct AssignRequest {
    pub parent: String,
}

/// The builder that `assign` returns.
pub type Assign<S> = RequestBuilder<S, AssignRequest>;

/// The request message of `unassign`.
pub struct UnassignRequest {
    pub parent: String,
}

/// The builder that `unassign` returns.
pub type Unassign<S> = RequestBuilder<S, UnassignRequest>;

/// The request message of `enumerate_licensed_users`.
pub struct EnumerateLicensedUsersRequest {
    pub parent: String,
}

/// The builder that `enumerate_licensed_users` returns.
pub type EnumerateLicensedUsers<S> = RequestBuilder<S, EnumerateLicensedUsersRequest>;

/// The request message of `get_operation`.
pub struct GetOperationRequest {
    pub name: String,
}

/// The builder that `get_operation` returns.
pub type GetOperation<S> = RequestBuilder<S, GetOperationRequest>;

/// The request message of `place_order`.
pub struct PlaceOrderRequest {
    pub parent: String,
}

/// The builder that `place_order` returns.
pub type PlaceOrder<S> = RequestBuilder<S, PlaceOrderRequest>;

/// The request message of `get_order`.
pub struct GetOrderRequest {
    pub name: String,
}

/// The builder that `get_order` returns.
pub type GetOrder<S> = RequestBuilder<S, GetOrderRequest>;

/// The request message of `list_orders`.
pub struct ListOrdersRequest {
    pub parent: String,
}

/// The builder that `list_orders` returns.
pub type ListOrders<S> = RequestBuilder<S, ListOrdersRequest>;

/// The request message of `modify_order`.
pub struct ModifyOrderRequest {
    pub name: String,
}

/// The builder that `modify_order` returns.
pub type ModifyOrder<S> = RequestBuilder<S, ModifyOrderRequest>;

/// The request message of `cancel_order`.
pub struct CancelOrderRequest {
    pub name: String,
}

/// The builder that `cancel_order` returns.
pub type CancelOrder<S> = RequestBuilder<S, CancelOrderRequest>;

/// Client of the license management service: license pools and their assignments.
///
/// Requests go through a stub of type `S`, shared by the client and the
/// builders it makes.
pub struct LicenseManagementService<S> {
    inner: Arc<S>,
}

impl<S> LicenseManagementService<S> {
    /// The stub through which the client sends its requests.
    pub closed spec fn stub_spec(&self) -> Arc<S> {
        self.inner
    }

    /// Creates a client that sends its requests through `stub`.
    pub fn from_stub(stub: S) -> (r: Self)
        ensures
            *r.stub_spec() == stub,
    {
        LicenseManagementService { inner: Arc::new(stub) }
    }

    /// Gets a license pool.
    pub fn get_license_pool(&self, name: String) -> (r: GetLicensePool<S>)
        ensures
            r.stub_spec() == self.stub_spec(),
            r.request_spec() == (GetLicensePoolRequest { name }),
            r.options_spec().attempt_timeout_spec() is None,
    {
        RequestBuilder::new(share(&self.inner), GetLicensePoolRequest { name })
    }

    /// Updates a license pool.
    pub fn update_license_pool<M>(&self, license_pool: M) -> (r: UpdateLicensePool<S, M>)
        ensures
            r.stub_spec() == self.stub_spec(),
            r.request_spec() == (UpdateLicensePoolRequest { license_pool: Some(license_pool) }),
            r.options_spec().attempt_timeout_spec() is None,
    {
        RequestBuilder::new(share(&self.inner), UpdateLicensePoolRequest { license_pool: Some(license_pool) })
    }

    /// Assigns licenses of the pool `parent` to users.
    pub fn assign(&self, parent: String) -> (r: Assign<S>)
        ensures
            r.stub_spec() == self.stub_spec(),
            r.request_spec() == (AssignRequest { parent }),
            r.options_spec().attempt_timeout_spec() is None,
    {
        RequestBuilder::new(share(&self.inner), AssignRequest { parent })
    }

    /// Takes licenses of the pool `parent` back from users.
    pub fn unassign(&self, parent: String) -> (r: Unassign<S>)
        ensures
            r.stub_spec() == self.stub_spec(),
            r.request_spec() == (UnassignRequest { parent }),
            r.options_spec().attempt_timeout_spec() is None,
    {
        RequestBuilder::new(share(&self.inner), UnassignRequest { parent })
    }

    /// Lists the users holding a license of the pool `parent`.
    pub fn enumerate_licensed_users(&self, parent: String) -> (r: EnumerateLicensedUsers<S>)
        ensures
            r.stub_spec() == self.stub_spec(),
            r.request_spec() == (EnumerateLicensedUsersRequest { parent }),
            r.options_spec().attempt_timeout_spec() is None,
    {
        RequestBuilder::new(share(&self.inner), EnumerateLicensedUsersRequest { parent })
    }

    /// Gets the latest state of a long-running operation.
    pub fn get_operation(&self, name: String) -> (r: GetOperation<S>)
        ensures
            r.stub_spec() == self.stub_spec(),
            r.request_spec() == (GetOperationRequest { name }),
            r.options_spec().attempt_timeout_spec() is None,
    {
        RequestBuilder::new(share(&self.inner), GetOperationRequest { name })
    }
}

/// Client of the consumer procurement service: orders for marketplace products.
///
/// Requests go through a stub of type `S`, shared by the client and the
/// builders it makes.
pub struct ConsumerProcurementService<S> {
    inner: Arc<S>,
}

impl<S> ConsumerProcurementService<S> {
    /// The stub through which the client sends its requests.
    pub closed spec fn stub_spec(&self) -> Arc<S> {
        self.inner
    }

    /// Creates a client that sends its requests through `stub`.
    pub fn from_stub(stub: S) -> (r: Self)
        ensures
            *r.stub_spec() == stub,
    {
        ConsumerProcurementService { inner: Arc::new(stub) }
    }

    /// Places an order under the billing account `parent`.
    pub fn place_order(&self, parent: String) -> (r: PlaceOrder<S>)
        ensures
            r.stub_spec() == self.stub_spec(),
            r.request_spec() == (PlaceOrderRequest { parent }),
            r.options_spec().attempt_timeout_spec() is None,
    {
        RequestBuilder::new(share(&self.inner), PlaceOrderRequest { parent })
    }

    /// Gets an order.
    pub fn get_order(&self, name: String) -> (r: GetOrder<S>)
        ensures
            r.stub_spec() == self.stub_spec(),
            r.request_spec() == (GetOrderRequest { name }),
            r.options_spec().attempt_timeout_spec() is None,
    {
        RequestBuilder::new(share(&self.inner), GetOrderRequest { name })
    }

    /// Lists the orders under the billing account `parent`.
    pub fn list_orders(&self, parent: String) -> (r: ListOrders<S>)
        ensures
            r.stub_spec() == self.stub_spec(),
            r.request_spec() == (ListOrdersRequest { parent }),
            r.options_spec().attempt_timeout_spec() is None,
    {
        RequestBuilder::new(share(&self.inner), ListOrdersRequest { parent })
    }

    /// Modifies an existing order.
    pub fn modify_order(&self, name: String) -> (r: ModifyOrder<S>)
        ensures
            r.stub_spec() == self.stub_spec(),
            r.request_spec() == (ModifyOrderRequest { name }),
            r.options_spec().attempt_timeout_spec() is None,
    {
        RequestBuilder::new(share(&self.inner), ModifyOrderRequest { name })
    }

    /// Cancels an existing order.
    pub fn cancel_order(&self, name: String) -> (r: CancelOrder<S>)
        ensures
            r.stub_spec() == self.stub_spec(),
            r.request_spec() == (CancelOrderRequest { name }),
            r.options_spec().attempt_timeout_spec() is None,
    {
        RequestBuilder::new(share(&self.inner), CancelOrderRequest { name })
    }

    /// Gets the latest state of a long-running operation.
    pub fn get_operation(&self, name: String) -> (r: GetOperation<S>)
        ensures
            r.stub_spec() == self.stub_spec(),
            r.request_spec() == (GetOperationRequest { name }),
            r.options_spec().attempt_timeout_spec() is None,
    {
        RequestBuilder::new(share(&self.inner), GetOperationRequest { name })
    }
}

} // verus!
