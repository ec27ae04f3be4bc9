//! Messages of the IAM v1 policy API.
pub mod audit_config_delta;
pub mod audit_log_config;
pub mod binding_delta;

use vstd::prelude::*;

verus! {

/// A set of field paths that an update touches.
#[derive(Clone, Debug, Default, PartialEq)]
pub struct FieldMask {
    pub paths: Vec<String>,
}

/// A logical expression in the Common Expression Language.
#[derive(Clone, Debug, Default, PartialEq)]
pub struct Expr {
    pub expression: String,
    pub title: String,
    pub description: String,
    pub location: String,
}

/// Request to set the access control policy of a resource.
#[derive(Clone, Debug, Default, PartialEq)]
pub struct SetIamPolicyRequest {
    pub resource: String,
    pub policy: Option<Policy>,
    pub update_mask: Option<FieldMask>,
}

/// Request to get the access control policy of a resource.
#[derive(Clone, Debug, Default, PartialEq)]
pub struct GetIamPolicyRequest {
    pub resource: String,
    pub options: Option<GetPolicyOptions>,
}

/// Request to test which of `permissions` the caller has on a resource.
#[derive(Clone, Debug, Default, PartialEq)]
pub struct TestIamPermissionsRequest {
    pub resource: String,
    pub permissions: Vec<String>,
}

/// The permissions that the caller has, out of those asked for.
#[derive(Clone, Debug, Default, PartialEq)]
pub struct TestIamPermissionsResponse {
    pub permissions: Vec<String>,
}

/// Options of a request that gets a policy.
#[derive(Clone, Debug, Default, PartialEq)]
pub struct GetPolicyOptions {
    pub requested_policy_version: i32,
}

/// An access control policy: bindings of members to roles, and audit
/// logging settings.
#[derive(Clone, Debug, Default, PartialEq)]
pub struct Policy {
    pub version: i32,
    pub bindings: Vec<Binding>,
    pub audit_configs: Vec<AuditConfig>,
    pub etag: Vec<u8>,
}

/// Binds `members` to `role`, under an optional condition.
#[derive(Clone, Debug, Default, PartialEq)]
pub struct Binding {
    pub role: String,
    pub members: Vec<String>,
    pub condition: Option<Expr>,
}

/// The audit logging settings of a service.
#[derive(Clone, Debug, Default, PartialEq)]
pub struct AuditConfig {
    pub service: String,
    pub audit_log_configs: Vec<AuditLogConfig>,
}

/// Which kind of permission use is logged, and who is exempt.
#[derive(Clone, Debug, Default, PartialEq)]
pub struct AuditLogConfig {
    pub log_type: audit_log_config::LogType,
    pub exempted_members: Vec<String>,
}

/// The changes between two policies.
#[derive(Clone, Debug, Default, PartialEq)]
pub struct PolicyDelta {
    pub binding_deltas: Vec<BindingDelta>,
    pub audit_config_deltas: Vec<AuditConfigDelta>,
}

/// One member added to or removed from a role.
#[derive(Clone, Debug, Default, PartialEq)]
pub struct BindingDelta {
    pub action: binding_delta::Action,
    pub role: String,
    pub member: String,
    pub condition: Option<Expr>,
}

/// One change of the audit logging settings.
#[derive(Clone, Debug, Default, PartialEq)]
pub struct AuditConfigDelta {
    pub action: audit_config_delta::Action,
    pub service: String,
    pub exempted_member: String,
    pub log_type: String,
}

} // verus!
