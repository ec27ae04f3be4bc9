use cloud_gax::binaryauthorization::{
    BinauthzManagementServiceV1, GetPolicyRequest, SystemPolicyV1, UpdatePolicyRequest,
    ValidationHelperV1,
};
use cloud_gax::container::ClusterManager;
use cloud_gax::iam_model::{audit_log_config, binding_delta, AuditLogConfig, Policy};
use cloud_gax::iam_v3::{PolicyBindings, PrincipalAccessBoundaryPolicies};
use cloud_gax::observability::{create_client_request_span, InstrumentationClientInfo, TracingResponse};
use cloud_gax::policytroubleshooter::IamChecker;
use cloud_gax::procurement::{ConsumerProcurementService, LicenseManagementService};
use cloud_gax::storage::{Bidi, OpenObject, Storage};
use cloud_gax::options::RequestOptions;
use cloud_gax::time::Duration;
use std::sync::Arc;

#[derive(Debug, PartialEq)]
struct FakeStub(u32);

#[test]
fn binauthz_builders_carry_their_arguments() {
    let client = BinauthzManagementServiceV1::from_stub(FakeStub(7));
    let get = client.get_policy("projects/p/policy".to_string());
    assert_eq!(get.request().name, "projects/p/policy");
    assert_eq!(**get.stub(), FakeStub(7));
    assert_eq!(get.options().attempt_timeout(), &None);
    let _: &GetPolicyRequest = get.request();

    let update = client.update_policy(42_u8);
    let _: &UpdatePolicyRequest<u8> = update.request();
    assert_eq!(update.request().policy, Some(42));

    assert_eq!(client.create_attestor("projects/p".to_string()).request().parent, "projects/p");
    assert_eq!(client.get_attestor("a".to_string()).request().name, "a");
    assert_eq!(client.update_attestor("x").request().attestor, Some("x"));
    assert_eq!(client.list_attestors("projects/q".to_string()).request().parent, "projects/q");
    assert_eq!(client.delete_attestor("b".to_string()).request().name, "b");
}

#[test]
fn builders_share_the_client_stub() {
    let client = SystemPolicyV1::from_stub(FakeStub(1));
    let a = client.get_system_policy("locations/global/policy".to_string());
    let b = client.get_system_policy("other".to_string());
    assert!(Arc::ptr_eq(a.stub(), b.stub()));
    assert_eq!(a.request().name, "locations/global/policy");

    let helper = ValidationHelperV1::from_stub(FakeStub(2));
    let v = helper.validate_attestation_occurrence("projects/p/attestors/a".to_string());
    assert_eq!(v.request().attestor, "projects/p/attestors/a");
}

#[test]
fn attempt_timeout_on_a_builder() {
    let client = IamChecker::from_stub(FakeStub(3));
    let b = client.troubleshoot_iam_policy().with_attempt_timeout(Duration::from_secs(9));
    assert_eq!(b.options().attempt_timeout(), &Some(Duration::from_secs(9)));
    assert_eq!(**b.stub(), FakeStub(3));
}

#[test]
fn procurement_builders() {
    let licenses = LicenseManagementService::from_stub(FakeStub(4));
    assert_eq!(licenses.get_license_pool("pool".to_string()).request().name, "pool");
    assert_eq!(licenses.update_license_pool(5_i32).request().license_pool, Some(5));
    assert_eq!(licenses.assign("pools/a".to_string()).request().parent, "pools/a");
    assert_eq!(licenses.unassign("pools/b".to_string()).request().parent, "pools/b");
    assert_eq!(licenses.enumerate_licensed_users("pools/c".to_string()).request().parent, "pools/c");
    assert_eq!(licenses.get_operation("op".to_string()).request().name, "op");

    let orders = ConsumerProcurementService::from_stub(FakeStub(5));
    assert_eq!(orders.place_order("billingAccounts/b".to_string()).request().parent, "billingAccounts/b");
    assert_eq!(orders.get_order("o1".to_string()).request().name, "o1");
    assert_eq!(orders.list_orders("billingAccounts/c".to_string()).request().parent, "billingAccounts/c");
    assert_eq!(orders.modify_order("o2".to_string()).request().name, "o2");
    assert_eq!(orders.cancel_order("o3".to_string()).request().name, "o3");
    assert_eq!(orders.get_operation("op2".to_string()).request().name, "op2");
}

#[test]
fn iam_v3_builders() {
    let bindings = PolicyBindings::from_stub(FakeStub(6));
    assert_eq!(bindings.create_policy_binding("parent".to_string()).request().parent, "parent");
    assert_eq!(bindings.get_policy_binding("n1".to_string()).request().name, "n1");
    assert_eq!(bindings.update_policy_binding(true).request().policy_binding, Some(true));
    assert_eq!(bindings.delete_policy_binding("n2".to_string()).request().name, "n2");
    assert_eq!(bindings.list_policy_bindings("p".to_string()).request().parent, "p");
    assert_eq!(bindings.search_target_policy_bindings("t".to_string()).request().parent, "t");
    assert_eq!(bindings.get_operation("op".to_string()).request().name, "op");

    let pab = PrincipalAccessBoundaryPolicies::from_stub(FakeStub(8));
    assert_eq!(pab.create_principal_access_boundary_policy("org".to_string()).request().parent, "org");
    assert_eq!(pab.get_principal_access_boundary_policy("x".to_string()).request().name, "x");
    assert_eq!(
        pab.update_principal_access_boundary_policy(3_u16).request().principal_access_boundary_policy,
        Some(3)
    );
    assert_eq!(pab.delete_principal_access_boundary_policy("y".to_string()).request().name, "y");
    assert_eq!(pab.list_principal_access_boundary_policies("org2".to_string()).request().parent, "org2");
    assert_eq!(pab.search_principal_access_boundary_policy_bindings("z".to_string()).request().name, "z");
    assert_eq!(pab.get_operation("op3".to_string()).request().name, "op3");
}

const INFO: InstrumentationClientInfo = InstrumentationClientInfo {
    service_name: "test.service",
    client_version: "1.2.3",
    client_artifact: "google-cloud-test",
    default_host: "example.com",
};

#[test]
fn test_create_client_request_span() {
    let span = create_client_request_span("google_cloud_test::service::TestMethod", "TestMethod", &INFO);
    assert!(span.client_span);
    assert_eq!(span.name, "google_cloud_test::service::TestMethod");
    assert_eq!(span.kind, "Internal");
    assert_eq!(span.rpc_system, "http");
    assert_eq!(span.rpc_service, "test.service");
    assert_eq!(span.rpc_method, "TestMethod");
    assert_eq!(span.client_service, "test.service");
    assert_eq!(span.client_version, "1.2.3");
    assert_eq!(span.client_repo, "googleapis/google-cloud-rust");
    assert_eq!(span.client_artifact, "google-cloud-test");
    assert_eq!(span.client_language, "rust");
    assert_eq!(span.status_code, "UNSET");

    let response = TracingResponse::new(vec![1_u8, 2], span);
    assert_eq!(response.inner(), &vec![1_u8, 2]);
    assert_eq!(response.span().rpc_method, "TestMethod");
}

#[test]
fn cluster_manager_decorates_its_stub() {
    let decorated = ClusterManager::new(FakeStub(9));
    assert_eq!(decorated.inner(), &FakeStub(9));
}

#[test]
fn open_object_names_bucket_and_object() {
    let mut options = RequestOptions::new();
    options.set_attempt_timeout(Duration::from_secs(1));
    let bidi = Bidi::from_stub(FakeStub(10), options);
    let open = bidi.open_object("projects/_/buckets/b".to_string(), "o.txt".to_string());
    assert_eq!(open.spec().bucket, "projects/_/buckets/b");
    assert_eq!(open.spec().object, "o.txt");

    let direct = OpenObject::new("b2".to_string(), "o2".to_string(), Arc::new(FakeStub(11)), RequestOptions::new());
    assert_eq!(direct.spec().bucket, "b2");
}

#[test]
fn storage_stub_tracing_flag() {
    let inner = Arc::new(FakeStub(12));
    assert!(Storage::new(inner.clone(), true).tracing());
    assert!(!Storage::new_test(inner).tracing());
}

#[test]
fn iam_model_values() {
    let config = AuditLogConfig {
        log_type: audit_log_config::LogType::new(audit_log_config::DATA_READ.to_string()),
        exempted_members: vec!["user:a@example.com".to_string()],
    };
    assert_eq!(config.log_type.value(), "DATA_READ");
    assert_eq!(binding_delta::Action::new(binding_delta::ADD.to_string()).value(), "ADD");
    let policy = Policy::default();
    assert_eq!(policy.version, 0);
    assert!(policy.bindings.is_empty());
}
