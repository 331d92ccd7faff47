//! Tests of the wire conversions, the channels, the error mapping, the
//! operator decisions and the log-collection computations.

use storctl::build_key_prefix;
use storctl::channel::{Channel, ChannelVs};
use storctl::child::{ChildState, ChildUri};
use storctl::diskpool::{
    create_or_import_decision, pool_check_decision, reconcile_action, retry_timeout_secs,
    CreateOrImportAction, DeviceCheck, DiskPoolStatus, PoolCheckAction, PoolProbe,
    ReconcileAction,
};
use storctl::errors::{status_code_of, ReplyError, ReplyErrorKind, ResourceKind, RestError};
use storctl::ids::is_uuid;
use storctl::loki::{
    extract_logs, next_poll_start, parse_since, Data, LogDirection, LokiResponse, StreamContent,
    StreamMetaData,
};
use storctl::mbus::{SendMessage, TimeoutOptions};
use storctl::msg::{Filter, NodeStatus};
use storctl::nodes::NodeEntry;
use storctl::rest::{destroy_nexus_request, nexus};
use storctl::pool::{PoolOperation, PoolSpec};
use storctl::specs::{store_key, SpecStatus, StorableObjectType};
use storctl::store::{watch_stops_after, StoredValue, WatchEvent};
use storctl::wire::{
    filter_try_from, protocol_from_i32, replica_try_from, validate_create_replica,
    CreateReplicaRequest, WireFilter, WireReplica, WireReplicaOwners,
};

#[test]
fn normalize_disk() {
    let normalize_disk = storctl::diskpool::normalize_disk;
    let disks = vec![
        "aio:///dev/null",
        "uring:///dev/null",
        "uring://dev/null", // this URL is invalid
    ];

    assert_eq!(normalize_disk(disks[0]), "/dev/null");
    assert_eq!(normalize_disk(disks[1]), "/dev/null");
    assert_eq!(normalize_disk(disks[2]), "uring://dev/null");
}

#[test]
fn child_uri_uuid_query() {
    let uri = ChildUri::new("nvmf://n0/target?uuid=deadbeef-0000-0000-0000-000000000001".into());
    assert_eq!(
        uri.uuid_str(),
        Some("deadbeef-0000-0000-0000-000000000001".to_string())
    );
    // percent-decoding applies to the query pair values
    let encoded = ChildUri::new("malloc:///disk?uuid=a%20b".into());
    assert_eq!(encoded.uuid_str(), Some("a b".to_string()));
    let no_query = ChildUri::new("malloc:///disk".into());
    assert_eq!(no_query.uuid_str(), None);
    let invalid = ChildUri::new("not a url at all".into());
    assert_eq!(invalid.uuid_str(), None);
}

#[test]
fn uuid_shape() {
    assert!(is_uuid("00000000-0000-0000-0000-000000000000"));
    assert!(is_uuid("deadbeef-CAFE-4ead-9999-0123456789ab"));
    assert!(!is_uuid(""));
    assert!(!is_uuid("deadbeef-cafe-4ead-9999-0123456789a"));
    assert!(!is_uuid("deadbeef.cafe.4ead.9999.0123456789ab"));
    assert!(!is_uuid("zeadbeef-cafe-4ead-9999-0123456789ab"));
}

#[test]
fn key_layout() {
    assert_eq!(
        build_key_prefix("/io-engine", "cluster-1", "default"),
        "/io-engine/cluster-1/default"
    );
    assert_eq!(
        store_key(StorableObjectType::PoolSpec, &"p0".to_string()),
        "spec/pool/p0"
    );
    assert_eq!(
        store_key(StorableObjectType::NexusInfo, &"x0".to_string()),
        "info/nexus/x0"
    );
}

#[test]
fn channel_wire_format() {
    assert_eq!(Channel::v0(ChannelVs::Pools).to_string(), "v0/pools");
    assert_eq!(Channel::v0(ChannelVs::Default).to_string(), "v0/default");
    assert_eq!(Channel::from_str("v0/nexuses"), Some(Channel::v0(ChannelVs::Nexuses)));
    assert_eq!(Channel::from_str("v0/unheard-of"), None);
    assert_eq!(Channel::from_str("v1/pools"), None);
    // round trip over every channel
    for c in [
        ChannelVs::Default,
        ChannelVs::Registry,
        ChannelVs::Nodes,
        ChannelVs::Pools,
        ChannelVs::Replicas,
        ChannelVs::Nexuses,
        ChannelVs::Volumes,
        ChannelVs::JsonGrpc,
        ChannelVs::Watcher,
    ] {
        let ch = Channel::v0(c);
        assert_eq!(Channel::from_str(ch.to_string().as_str()), Some(ch));
    }
}

#[test]
fn error_kind_status_codes() {
    assert_eq!(status_code_of(ReplyErrorKind::NotFound), 404);
    assert_eq!(status_code_of(ReplyErrorKind::AlreadyExists), 422);
    assert_eq!(status_code_of(ReplyErrorKind::FailedPrecondition), 412);
    assert_eq!(status_code_of(ReplyErrorKind::Conflict), 409);
    assert_eq!(status_code_of(ReplyErrorKind::DeadlineExceeded), 504);
    assert_eq!(status_code_of(ReplyErrorKind::Unavailable), 503);
    assert_eq!(status_code_of(ReplyErrorKind::ResourceExhausted), 507);
    assert_eq!(status_code_of(ReplyErrorKind::ReplicaCountAchieved), 412);
    assert_eq!(status_code_of(ReplyErrorKind::ReplicaChangeCount), 412);

    let rest = RestError::from(ReplyError {
        kind: ReplyErrorKind::NotFound,
        resource: ResourceKind::Nexus,
        source: "get_nexus".to_string(),
        extra: "nexus not found".to_string(),
    });
    assert_eq!(rest.status, 404);
    assert_eq!(rest.error.message, "get_nexus");
    assert_eq!(rest.error.details, "nexus not found");
}

#[test]
fn rest_nexus_lookup() {
    let missing = nexus(Some("x0".to_string()), None);
    match missing {
        Err(e) => {
            assert_eq!(e.kind, ReplyErrorKind::NotFound);
            assert_eq!(e.extra, "Nexus id : x0");
        }
        Ok(_) => panic!("an absent nexus must be a not-found error"),
    }
}

#[test]
fn rest_destroy_nexus_filters() {
    let ok = destroy_nexus_request(
        Filter::NodeNexus("n0".to_string(), "x0".to_string()),
        None,
    );
    let d = ok.expect("a node-nexus filter resolves directly");
    assert_eq!(d.node, "n0");
    assert_eq!(d.uuid, "x0");

    let resolved = destroy_nexus_request(
        Filter::Nexus("x0".to_string()),
        Some("n1".to_string()),
    );
    assert_eq!(resolved.expect("resolved").node, "n1");

    let invalid = destroy_nexus_request(Filter::Pool("p0".to_string()), None);
    match invalid {
        Err(e) => {
            assert_eq!(e.kind, ReplyErrorKind::Internal);
            assert_eq!(e.extra, "invalid filter for resource");
        }
        Ok(_) => panic!("a pool filter is invalid for a nexus destroy"),
    }
}

#[test]
fn wire_protocol_discriminants() {
    assert!(protocol_from_i32(0).is_some());
    assert!(protocol_from_i32(3).is_some());
    assert!(protocol_from_i32(4).is_none());
    assert!(protocol_from_i32(-1).is_none());
}

fn wire_replica(share: i32, status: i32, id: Option<&str>) -> WireReplica {
    WireReplica {
        node_id: "n0".to_string(),
        name: "r1".to_string(),
        replica_id: id.map(|s| s.to_string()),
        pool_id: "p0".to_string(),
        thin: true,
        size: 1024,
        share,
        uri: "nvmf://n0/r1".to_string(),
        status,
    }
}

#[test]
fn wire_replica_decoding() {
    let good = wire_replica(1, 1, Some("00000000-0000-0000-0000-000000000001"));
    let replica = replica_try_from(good).expect("a valid wire replica decodes");
    assert_eq!(replica.uuid, "00000000-0000-0000-0000-000000000001");
    assert_eq!(replica.size, 1024);

    let missing_id = replica_try_from(wire_replica(1, 1, None));
    assert_eq!(missing_id.unwrap_err().kind, ReplyErrorKind::InvalidArgument);

    let bad_id = replica_try_from(wire_replica(1, 1, Some("not-a-uuid")));
    assert_eq!(bad_id.unwrap_err().kind, ReplyErrorKind::InvalidArgument);

    let bad_share = replica_try_from(wire_replica(9, 1, Some(
        "00000000-0000-0000-0000-000000000001",
    )));
    assert_eq!(bad_share.unwrap_err().kind, ReplyErrorKind::InvalidArgument);

    let bad_status = replica_try_from(wire_replica(1, 9, Some(
        "00000000-0000-0000-0000-000000000001",
    )));
    assert_eq!(bad_status.unwrap_err().kind, ReplyErrorKind::InvalidArgument);
}

#[test]
fn wire_filter_decoding() {
    let ok = filter_try_from(WireFilter::Replica(
        "00000000-0000-0000-0000-000000000001".to_string(),
    ));
    assert!(matches!(ok, Ok(Filter::Replica(_))));

    let bad = filter_try_from(WireFilter::Replica("nope".to_string()));
    assert_eq!(bad.unwrap_err().kind, ReplyErrorKind::InvalidArgument);

    let node = filter_try_from(WireFilter::Node("n0".to_string()));
    assert!(matches!(node, Ok(Filter::Node(_))));

    let volume = filter_try_from(WireFilter::Volume("short".to_string()));
    assert!(volume.is_err());
}

#[test]
fn wire_create_replica_validation() {
    let request = CreateReplicaRequest {
        node_id: "n0".to_string(),
        pool_id: "p0".to_string(),
        name: None,
        replica_id: Some("00000000-0000-0000-0000-000000000001".to_string()),
        thin: true,
        size: 4096,
        share: 0,
        managed: true,
        owners: Some(WireReplicaOwners { volume: None, nexuses: vec![] }),
    };
    let validated = validate_create_replica(request).expect("a valid request validates");
    let create = validated.into_request();
    assert_eq!(create.uuid, "00000000-0000-0000-0000-000000000001");
    assert_eq!(create.size, 4096);

    let no_owners = CreateReplicaRequest {
        node_id: "n0".to_string(),
        pool_id: "p0".to_string(),
        name: None,
        replica_id: Some("00000000-0000-0000-0000-000000000001".to_string()),
        thin: true,
        size: 4096,
        share: 0,
        managed: true,
        owners: None,
    };
    assert!(validate_create_replica(no_owners).is_err());
}

#[test]
fn operator_reconcile_steps() {
    assert_eq!(reconcile_action(&None), ReconcileAction::Start);
    let mut status = DiskPoolStatus::new_creating();
    assert_eq!(reconcile_action(&Some(status)), ReconcileAction::CreateOrImport);
    status = DiskPoolStatus::created();
    assert_eq!(reconcile_action(&Some(status)), ReconcileAction::OnlinePool);
    status = DiskPoolStatus::unknown();
    assert_eq!(reconcile_action(&Some(status)), ReconcileAction::PoolCheck);
    status = DiskPoolStatus::error();
    assert_eq!(reconcile_action(&Some(status)), ReconcileAction::StopWithError);
}

#[test]
fn operator_create_or_import() {
    assert_eq!(
        create_or_import_decision(10, 10, DeviceCheck::Present),
        CreateOrImportAction::StopReconciliation
    );
    assert_eq!(
        create_or_import_decision(0, 10, DeviceCheck::Present),
        CreateOrImportAction::CreatePool
    );
    assert_eq!(
        create_or_import_decision(3, 10, DeviceCheck::Missing),
        CreateOrImportAction::SpecError { timeout_secs: 8 }
    );
    assert_eq!(
        create_or_import_decision(0, 10, DeviceCheck::QueryFailed(PoolProbe::RequestFailed)),
        CreateOrImportAction::MarkUnknown
    );
    assert_eq!(
        create_or_import_decision(
            0,
            10,
            DeviceCheck::QueryFailed(PoolProbe::Found { has_state: true }),
        ),
        CreateOrImportAction::SetStatusOrUnknown { has_state: true }
    );
}

#[test]
fn operator_pool_check() {
    assert_eq!(pool_check_decision(PoolProbe::NotFound, true), PoolCheckAction::Done);
    assert_eq!(pool_check_decision(PoolProbe::NotFound, false), PoolCheckAction::MarkError);
    assert_eq!(pool_check_decision(PoolProbe::Unavailable, false), PoolCheckAction::MarkUnknown);
    assert_eq!(pool_check_decision(PoolProbe::OtherError, false), PoolCheckAction::IsMissing);
    assert_eq!(
        pool_check_decision(PoolProbe::Found { has_state: false }, false),
        PoolCheckAction::SetStatusOrUnknown { has_state: false }
    );
}

#[test]
fn retry_backoff_doubles() {
    assert_eq!(retry_timeout_secs(0), 1);
    assert_eq!(retry_timeout_secs(1), 2);
    assert_eq!(retry_timeout_secs(10), 1024);
    assert_eq!(retry_timeout_secs(40), u32::MAX);
}

fn loki_response(status: &str, rows: Vec<Vec<Vec<&str>>>) -> LokiResponse {
    LokiResponse {
        status: status.to_string(),
        data: Data {
            result: rows
                .into_iter()
                .map(|values| StreamContent {
                    stream_metadata: StreamMetaData {
                        host_name: "h0".to_string(),
                        pod_name: "pod".to_string(),
                        container_name: "io-engine".to_string(),
                    },
                    values: values
                        .into_iter()
                        .map(|row| row.into_iter().map(|s| s.to_string()).collect())
                        .collect(),
                })
                .collect(),
        },
    }
}

#[test]
fn parse_since_texts() {
    assert_eq!(parse_since("0"), 0);
    assert_eq!(parse_since("1234567890123456789"), 1234567890123456789);
    assert_eq!(parse_since(""), 0);
    assert_eq!(parse_since("12a"), 0);
    assert_eq!(parse_since("-5"), 0);
    // a value beyond the range parses to zero
    assert_eq!(parse_since("340282366920938463463374607431768211456"), 0);
    assert_eq!(
        parse_since("340282366920938463463374607431768211455"),
        u128::MAX
    );
}

#[test]
fn get_last_stream_unix_time() {
    let response = loki_response(
        "success",
        vec![
            vec![vec!["100", "first line"]],
            vec![vec!["200", "second line"], vec!["300", "third line"]],
        ],
    );
    assert_eq!(response.get_last_stream_unix_time(), 300);

    let empty = loki_response("success", vec![]);
    assert_eq!(empty.get_last_stream_unix_time(), 0);
}

#[test]
fn poll_advance_and_log_extraction() {
    let response = loki_response(
        "success",
        vec![vec![vec!["100", "first"], vec!["250", ""], vec!["300", "third"]]],
    );
    assert_eq!(next_poll_start(&response), Some(300 + 1_000_000));
    let logs = extract_logs(&response);
    assert_eq!(logs, vec!["first".to_string(), "third".to_string()]);

    let done = loki_response("success", vec![]);
    assert_eq!(next_poll_start(&done), None);

    assert_eq!(LogDirection::Forward.as_string(), "forward");
}

#[test]
fn node_liveness_transitions() {
    let mut node = NodeEntry::new("n0".to_string(), 100);
    assert_eq!(node.status, NodeStatus::Online);
    node.on_missed_response();
    assert_eq!(node.status, NodeStatus::Unknown);
    // within the deadline the node may still come back
    node.on_deadline_check(105, 10);
    assert_eq!(node.status, NodeStatus::Unknown);
    node.on_deadline_check(111, 10);
    assert_eq!(node.status, NodeStatus::Offline);
    node.on_register(120);
    assert_eq!(node.status, NodeStatus::Online);
    assert_eq!(node.last_seen, 120);
}

#[test]
fn send_message_envelope() {
    let message = SendMessage::new(
        "create-pool".to_string(),
        "core-agent".to_string(),
        vec![1, 2, 3],
        Channel::v0(ChannelVs::Pools),
    );
    assert_eq!(message.payload.preamble.id, "create-pool");
    assert_eq!(message.payload.preamble.sender, "core-agent");
    assert!(message.payload.preamble.trace_context.is_none());

    let mut payload = message.payload;
    payload.set(&"traceparent".to_string(), "00-abc-01".to_string());
    let context = payload.preamble.trace_context.as_ref().expect("a carrier was created");
    assert_eq!(context.entries, vec![("traceparent".to_string(), "00-abc-01".to_string())]);

    let defaults = TimeoutOptions { timeout_ms: 5000, max_retries: 3 };
    let resolved = message_timeouts(&defaults);
    assert_eq!(resolved.timeout_ms, 5000);
}

fn message_timeouts(defaults: &TimeoutOptions) -> TimeoutOptions {
    let message = SendMessage::new(
        "get-specs".to_string(),
        "core-agent".to_string(),
        vec![],
        Channel::v0(ChannelVs::Registry),
    );
    // no caller options: the bus default applies, floored by the message
    // minimum
    let low_floor = message.timeout_opts(None, *defaults, 1000, false);
    assert_eq!(low_floor.timeout_ms, defaults.timeout_ms);
    let high_floor = message.timeout_opts(None, *defaults, 60_000, false);
    assert_eq!(high_floor.timeout_ms, 60_000);
    let no_floors = message.timeout_opts(None, *defaults, 60_000, true);
    assert_eq!(no_floors.timeout_ms, defaults.timeout_ms);
    message.timeout_opts(None, *defaults, 1000, false)
}

#[test]
fn child_state_health_order() {
    // the health order is Faulted < Unknown < Degraded < Online
    assert!(ChildState::Faulted < ChildState::Unknown);
    assert!(ChildState::Unknown < ChildState::Degraded);
    assert!(ChildState::Degraded < ChildState::Online);
    assert!(!(ChildState::Online < ChildState::Faulted));
    assert!(ChildState::Faulted.faulted());
    assert!(!ChildState::Online.faulted());
    assert_eq!(ChildState::default(), ChildState::Unknown);
}

#[test]
fn watch_stream_termination() {
    let spec = PoolSpec::from_request(&storctl::msg::CreatePool {
        node: "n0".to_string(),
        id: "p0".to_string(),
        disks: vec![],
        labels: None,
    });
    let put = WatchEvent::Put("spec/pool/p0".to_string(), StoredValue::Pool(spec));
    assert!(!watch_stops_after(&put));
    assert!(watch_stops_after(&WatchEvent::Delete));
}

#[test]
fn pool_spec_transaction_steps() {
    let request = storctl::msg::CreatePool {
        node: "n0".to_string(),
        id: "p0".to_string(),
        disks: vec!["aio:///dev/null".to_string()],
        labels: None,
    };
    let mut spec = PoolSpec::from_request(&request);
    assert!(!spec.pending_op());
    spec.start_op(PoolOperation::Create);
    assert!(spec.pending_op());
    spec.set_op_result(true);
    spec.commit_op();
    assert!(!spec.pending_op());
    assert_eq!(spec.status, SpecStatus::Created(storctl::msg::PoolStatus::Online));
    spec.start_op(PoolOperation::Destroy);
    spec.clear_op();
    assert!(!spec.pending_op());
    assert_eq!(spec.status, SpecStatus::Created(storctl::msg::PoolStatus::Online));
}

#[test]
fn wire_replica_round_trip() {
    let replica = storctl::msg::Replica {
        node: "n0".to_string(),
        name: "r1".to_string(),
        uuid: "00000000-0000-0000-0000-000000000001".to_string(),
        pool: "p0".to_string(),
        thin: true,
        size: 4096,
        share: storctl::msg::Protocol::Nvmf,
        uri: "nvmf://n0/r1".to_string(),
        status: storctl::msg::ReplicaStatus::Online,
    };
    let wire = storctl::wire::replica_into_wire(replica.clone());
    let back = storctl::wire::replica_try_from(wire).expect("an encoded replica decodes");
    assert_eq!(back.node, replica.node);
    assert_eq!(back.uuid, replica.uuid);
    assert_eq!(back.share, replica.share);
    assert_eq!(back.status, replica.status);
    assert_eq!(back.size, replica.size);
}

#[test]
fn wire_replica_spec_round_trip() {
    let spec = storctl::replica::ReplicaSpec {
        name: "r1".to_string(),
        uuid: "00000000-0000-0000-0000-000000000001".to_string(),
        size: 4096,
        pool: "p0".to_string(),
        share: storctl::msg::Protocol::Nvmf,
        thin: false,
        status: storctl::specs::SpecStatus::Created(storctl::msg::ReplicaStatus::Online),
        managed: true,
        owners: storctl::msg::ReplicaOwners::new(
            Some("00000000-0000-0000-0000-000000000020".to_string()),
            vec!["00000000-0000-0000-0000-000000000010".to_string()],
        ),
        sequencer: storctl::sequencer::OperationSequence::new(
            "00000000-0000-0000-0000-000000000001".to_string(),
        ),
        operation: None,
    };
    let wire = storctl::wire::replica_spec_into_wire(spec);
    let back = storctl::wire::replica_spec_try_from(wire).expect("an encoded spec decodes");
    assert_eq!(back.uuid, "00000000-0000-0000-0000-000000000001");
    assert_eq!(back.share, storctl::msg::Protocol::Nvmf);
    assert!(matches!(
        back.status,
        storctl::specs::SpecStatus::Created(storctl::msg::ReplicaStatus::Online)
    ));
    assert_eq!(
        back.owners.volume(),
        &Some("00000000-0000-0000-0000-000000000020".to_string())
    );
    assert_eq!(
        back.owners.nexuses(),
        &vec!["00000000-0000-0000-0000-000000000010".to_string()]
    );
    assert!(back.operation.is_none());
}

#[test]
fn wire_destroy_share_unshare_validation() {
    let destroy = storctl::wire::DestroyReplicaRequest {
        node_id: "n0".to_string(),
        pool_id: "p0".to_string(),
        name: None,
        replica_id: Some("00000000-0000-0000-0000-000000000001".to_string()),
        disowners: Some(storctl::wire::WireReplicaOwners { volume: None, nexuses: vec![] }),
    };
    let request = storctl::wire::validate_destroy_replica(destroy)
        .expect("a valid destroy request validates")
        .into_request();
    assert_eq!(request.uuid, "00000000-0000-0000-0000-000000000001");

    let share = storctl::wire::ShareReplicaRequest {
        node_id: "n0".to_string(),
        pool_id: "p0".to_string(),
        name: None,
        replica_id: Some("00000000-0000-0000-0000-000000000001".to_string()),
        protocol: 1,
    };
    assert!(storctl::wire::validate_share_replica(share).is_ok());
    let bad_protocol = storctl::wire::ShareReplicaRequest {
        node_id: "n0".to_string(),
        pool_id: "p0".to_string(),
        name: None,
        replica_id: Some("00000000-0000-0000-0000-000000000001".to_string()),
        protocol: 2,
    };
    assert!(storctl::wire::validate_share_replica(bad_protocol).is_err());

    let unshare = storctl::wire::UnshareReplicaRequest {
        node_id: "n0".to_string(),
        pool_id: "p0".to_string(),
        name: None,
        replica_id: None,
    };
    assert!(storctl::wire::validate_unshare_replica(unshare).is_err());
}
