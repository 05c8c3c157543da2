use delete_blob::{
    Client, DeleteBlobBuilder, DeleteBlobRequest, DeleteSnapshotsMethod, Header, LeaseId, No, Yes,
};

fn expected_request() -> DeleteBlobRequest {
    DeleteBlobRequest {
        method: "DELETE".to_string(),
        uri: "https://account.blob.core.windows.net/c/b".to_string(),
        headers: vec![Header::new("x-ms-delete-snapshots", "include")],
    }
}

#[test]
fn fresh_builder_has_no_optional_parameter() {
    let client = Client::new("account");
    let builder: DeleteBlobBuilder<No, No, No> = DeleteBlobBuilder::new(&client);
    assert_eq!(builder.client().account(), "account");
    assert_eq!(builder.timeout(), None);
    assert_eq!(builder.lease_id(), None);
    assert_eq!(builder.client_request_id(), None);
}

#[test]
fn accessors_return_what_was_set() {
    let client = Client::new("account");
    let lease = LeaseId::new("lease-1");
    let builder = DeleteBlobBuilder::new(&client)
        .with_container_name("c")
        .with_blob_name("b")
        .with_delete_snapshots_method(DeleteSnapshotsMethod::Only)
        .with_timeout(30)
        .with_lease_id(&lease)
        .with_client_request_id("trace-1");
    assert_eq!(builder.container_name(), "c");
    assert_eq!(builder.blob_name(), "b");
    assert_eq!(builder.delete_snapshots_method(), DeleteSnapshotsMethod::Only);
    assert_eq!(builder.timeout(), Some(30));
    assert_eq!(builder.lease_id().map(|l| l.as_str()), Some("lease-1"));
    assert_eq!(builder.client_request_id(), Some("trace-1"));
}

#[test]
fn a_mandatory_accessor_needs_only_its_own_parameter() {
    let client = Client::new("account");
    let new = || DeleteBlobBuilder::new(&client);
    let container: DeleteBlobBuilder<Yes, No, No> = new().with_container_name("c");
    assert_eq!(container.container_name(), "c");
    let blob: DeleteBlobBuilder<No, Yes, No> = new().with_blob_name("b");
    assert_eq!(blob.blob_name(), "b");
    let method: DeleteBlobBuilder<No, No, Yes> =
        new().with_delete_snapshots_method(DeleteSnapshotsMethod::Include);
    assert_eq!(method.delete_snapshots_method(), DeleteSnapshotsMethod::Include);
}

#[test]
fn every_order_of_mandatory_calls_finalizes() {
    let client = Client::new("account");
    let m = DeleteSnapshotsMethod::Include;
    let new = || DeleteBlobBuilder::new(&client);
    let orders: Vec<DeleteBlobBuilder<Yes, Yes, Yes>> = vec![
        new().with_container_name("c").with_blob_name("b").with_delete_snapshots_method(m),
        new().with_container_name("c").with_delete_snapshots_method(m).with_blob_name("b"),
        new().with_blob_name("b").with_container_name("c").with_delete_snapshots_method(m),
        new().with_blob_name("b").with_delete_snapshots_method(m).with_container_name("c"),
        new().with_delete_snapshots_method(m).with_container_name("c").with_blob_name("b"),
        new().with_delete_snapshots_method(m).with_blob_name("b").with_container_name("c"),
    ];
    assert_eq!(orders.len(), 6);
    for builder in orders {
        assert_eq!(
            builder,
            new().with_container_name("c").with_blob_name("b").with_delete_snapshots_method(m)
        );
        assert_eq!(builder.finalize(), expected_request());
    }
}

#[test]
fn optional_calls_may_come_before_mandatory_ones() {
    let client = Client::new("account");
    let lease = LeaseId::new("lease-1");
    let early = DeleteBlobBuilder::new(&client)
        .with_timeout(5)
        .with_lease_id(&lease)
        .with_client_request_id("id")
        .with_blob_name("b")
        .with_delete_snapshots_method(DeleteSnapshotsMethod::Only)
        .with_container_name("c");
    let late = DeleteBlobBuilder::new(&client)
        .with_container_name("c")
        .with_blob_name("b")
        .with_delete_snapshots_method(DeleteSnapshotsMethod::Only)
        .with_client_request_id("id")
        .with_lease_id(&lease)
        .with_timeout(5);
    assert_eq!(early, late);
    assert_eq!(early.finalize(), late.finalize());
}

#[test]
fn choosing_the_default_snapshot_method_is_a_choice() {
    let client = Client::new("account");
    let chosen = DeleteBlobBuilder::new(&client)
        .with_container_name("c")
        .with_blob_name("b")
        .with_delete_snapshots_method(DeleteSnapshotsMethod::Include);
    assert_eq!(chosen.delete_snapshots_method(), DeleteSnapshotsMethod::Include);
    assert_eq!(chosen.finalize(), expected_request());
}

#[test]
fn setting_timeout_twice_keeps_the_last() {
    let client = Client::new("account");
    let builder = DeleteBlobBuilder::new(&client).with_timeout(10).with_timeout(30);
    assert_eq!(builder.timeout(), Some(30));
    assert_eq!(builder, DeleteBlobBuilder::new(&client).with_timeout(30));
    let request = builder
        .with_container_name("c")
        .with_blob_name("b")
        .with_delete_snapshots_method(DeleteSnapshotsMethod::Include)
        .finalize();
    assert_eq!(request.uri, "https://account.blob.core.windows.net/c/b?timeout=30");
}

#[test]
fn setting_lease_id_twice_keeps_the_last() {
    let client = Client::new("account");
    let first = LeaseId::new("first");
    let second = LeaseId::new("second");
    let builder = DeleteBlobBuilder::new(&client)
        .with_container_name("c")
        .with_blob_name("b")
        .with_delete_snapshots_method(DeleteSnapshotsMethod::Only)
        .with_lease_id(&first)
        .with_lease_id(&second);
    assert_eq!(builder.lease_id(), Some(&second));
    assert_eq!(builder.container_name(), "c");
    assert_eq!(builder.blob_name(), "b");
    assert_eq!(builder.delete_snapshots_method(), DeleteSnapshotsMethod::Only);
    let request = builder.finalize();
    assert_eq!(request.headers.len(), 2);
    assert_eq!(request.headers[1], Header::new("x-ms-lease-id", "second"));
}

#[test]
fn setting_client_request_id_twice_keeps_the_last() {
    let client = Client::new("account");
    let builder = DeleteBlobBuilder::new(&client)
        .with_client_request_id("first")
        .with_client_request_id("second");
    assert_eq!(builder.client_request_id(), Some("second"));
    assert_eq!(builder, DeleteBlobBuilder::new(&client).with_client_request_id("second"));
}

#[test]
fn setting_a_mandatory_parameter_twice_keeps_the_last() {
    let client = Client::new("account");
    let builder = DeleteBlobBuilder::new(&client)
        .with_container_name("first")
        .with_container_name("second")
        .with_blob_name("old")
        .with_blob_name("new")
        .with_delete_snapshots_method(DeleteSnapshotsMethod::Only)
        .with_delete_snapshots_method(DeleteSnapshotsMethod::Include);
    assert_eq!(builder.container_name(), "second");
    assert_eq!(builder.blob_name(), "new");
    assert_eq!(builder.delete_snapshots_method(), DeleteSnapshotsMethod::Include);
    let request = builder.finalize();
    assert_eq!(request.uri, "https://account.blob.core.windows.net/second/new");
    assert_eq!(request.headers, vec![Header::new("x-ms-delete-snapshots", "include")]);
}

#[test]
fn repeating_a_call_changes_nothing() {
    let client = Client::new("account");
    let lease = LeaseId::new("lease-1");
    let new = || DeleteBlobBuilder::new(&client);
    assert_eq!(
        new().with_container_name("c").with_container_name("c"),
        new().with_container_name("c")
    );
    assert_eq!(new().with_blob_name("b").with_blob_name("b"), new().with_blob_name("b"));
    assert_eq!(
        new()
            .with_delete_snapshots_method(DeleteSnapshotsMethod::Only)
            .with_delete_snapshots_method(DeleteSnapshotsMethod::Only),
        new().with_delete_snapshots_method(DeleteSnapshotsMethod::Only)
    );
    assert_eq!(new().with_timeout(7).with_timeout(7), new().with_timeout(7));
    assert_eq!(new().with_lease_id(&lease).with_lease_id(&lease), new().with_lease_id(&lease));
    assert_eq!(
        new().with_client_request_id("id").with_client_request_id("id"),
        new().with_client_request_id("id")
    );
    let once = new()
        .with_container_name("c")
        .with_blob_name("b")
        .with_delete_snapshots_method(DeleteSnapshotsMethod::Only);
    let twice = once.clone().with_blob_name("b");
    assert_eq!(once.finalize(), twice.finalize());
}

#[test]
fn a_call_leaves_the_other_parameters_alone() {
    let client = Client::new("account");
    let lease = LeaseId::new("lease-1");
    let before = DeleteBlobBuilder::new(&client)
        .with_container_name("c")
        .with_timeout(3)
        .with_lease_id(&lease);
    let after = before.clone().with_blob_name("b");
    assert_eq!(after.container_name(), before.container_name());
    assert_eq!(after.timeout(), before.timeout());
    assert_eq!(after.lease_id(), before.lease_id());
    assert_eq!(after.client_request_id(), before.client_request_id());
    assert_eq!(after.blob_name(), "b");
}

#[test]
fn a_clone_is_equal_to_its_source() {
    let client = Client::new("account");
    let lease = LeaseId::new("lease-1");
    let builder = DeleteBlobBuilder::new(&client)
        .with_container_name("c")
        .with_blob_name("b")
        .with_delete_snapshots_method(DeleteSnapshotsMethod::Only)
        .with_timeout(9)
        .with_lease_id(&lease)
        .with_client_request_id("id");
    let copy = builder.clone();
    assert_eq!(copy, builder);
    assert_eq!(copy.finalize(), builder.finalize());
}
