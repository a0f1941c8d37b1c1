use os_transport::smap::StringMap;
use os_transport::action_wire::{TimeValueWire, TransportActionWireError, write_parent_task_id};
use os_transport::admin_messages::{build_cancel_tasks_request_message, build_cancel_tasks_response_message, build_cluster_stats_request_message, build_cluster_update_settings_request_message, build_get_repositories_request_message, build_list_tasks_request_message, build_list_tasks_response_message, build_nodes_hot_threads_request_message, build_nodes_info_request_message, build_nodes_stats_request_message, build_nodes_usage_request_message, build_opensearch_cluster_search_shards_request_message, build_opensearch_get_aliases_request_message, build_opensearch_get_data_stream_request_message, build_opensearch_get_field_mappings_request_message, build_opensearch_get_mappings_request_message, build_opensearch_get_settings_request_message, build_opensearch_indices_segments_request_message, build_opensearch_indices_shard_stores_request_message, build_opensearch_indices_stats_request_message, build_opensearch_recovery_request_message, read_cancel_tasks_request_message, read_cancel_tasks_response_message, read_cluster_stats_request_message, read_cluster_update_settings_request_message, read_get_repositories_request_message, read_list_tasks_request_message, read_list_tasks_response_message, read_nodes_hot_threads_request_message, read_nodes_info_request_message, read_nodes_stats_request_message, read_nodes_usage_request_message, read_opensearch_cluster_search_shards_request_message, read_opensearch_get_aliases_request_message, read_opensearch_get_data_stream_request_message, read_opensearch_get_field_mappings_request_message, read_opensearch_get_mappings_request_message, read_opensearch_get_settings_request_message, read_opensearch_indices_segments_request_message, read_opensearch_indices_shard_stores_request_message, read_opensearch_indices_stats_request_message, read_opensearch_recovery_request_message};
use os_transport::admin_requests::{AcknowledgedResponseWire, ClusterHealthRequestWire, ClusterStateRequestWire, ClusterStatsRequestWire, ClusterUpdateSettingsRequestWire, CommonStatsFlagsWire, GetRepositoriesRequestWire, NodesHotThreadsRequestWire, NodesInfoRequestWire, NodesStatsRequestWire, NodesUsageRequestWire, OPENSEARCH_CLUSTER_HEALTH_STATUS_GREEN, OPENSEARCH_COMMON_STATS_DEFAULT_FLAGS, OpenSearchClusterSearchShardsRequestWire, OpenSearchGetAliasesRequestWire, OpenSearchGetDataStreamRequestWire, OpenSearchGetFieldMappingsRequestWire, OpenSearchGetMappingsRequestWire, OpenSearchGetSettingsRequestWire, OpenSearchIndicesSegmentsRequestWire, OpenSearchIndicesShardStoresRequestWire, OpenSearchIndicesStatsRequestWire, OpenSearchRecoveryRequestWire, nodes_info_default_metrics};
use os_transport::dispatch::{OpenSearchTransportActionDisposition, classify_opensearch_transport_request_message};
use os_transport::document_messages::{build_opensearch_refresh_request_message, build_opensearch_refresh_response_message, read_opensearch_refresh_request_message, read_opensearch_refresh_response_message};
use os_transport::document_requests::{OpenSearchRefreshRequestWire, OpenSearchRefreshResponseWire};
use os_transport::frame::{DecodedFrame, decode_frame};
use os_transport::indices_options::{OpenSearchIndicesOptionsWire};
use os_transport::stream::{StreamOutput};
use os_transport::task_requests::{CancelTasksRequestWire, CancelTasksResponseWire, GetTaskRequestWire, GetTaskResponseWire, ListTasksRequestWire, ListTasksResponseWire, TaskIdWire};
use os_transport::version::{opensearch_3_7_0_transport};

#[test]
fn opensearch_refresh_transport_messages_bind_action_frames() {
        let request = OpenSearchRefreshRequestWire::new(vec!["logs-000001".into()]);
        let mut frame =
            build_opensearch_refresh_request_message(19, opensearch_3_7_0_transport(), &request)
                .unwrap();
        let message = match decode_frame(&mut frame).unwrap().unwrap() {
            DecodedFrame::Message(message) => message,
            DecodedFrame::Ping => panic!("expected message frame"),
        };

        assert_eq!(message.request_id, 19);
        assert!(message.status.is_request());
        assert_eq!(
            classify_opensearch_transport_request_message(&message)
                .unwrap()
                .disposition,
            OpenSearchTransportActionDisposition::Implemented
        );
        assert_eq!(
            read_opensearch_refresh_request_message(&message).unwrap(),
            request
        );

        let response = OpenSearchRefreshResponseWire::success(1);
        let mut frame =
            build_opensearch_refresh_response_message(19, opensearch_3_7_0_transport(), &response)
                .unwrap();
        let message = match decode_frame(&mut frame).unwrap().unwrap() {
            DecodedFrame::Message(message) => message,
            DecodedFrame::Ping => panic!("expected message frame"),
        };

        assert_eq!(message.request_id, 19);
        assert!(message.status.is_response());
        assert_eq!(
            read_opensearch_refresh_response_message(&message).unwrap(),
            response
        );
    }

#[test]
fn cluster_state_request_wire_round_trips() {
        let request = ClusterStateRequestWire {
            local: true,
            metadata: false,
            indices: vec!["logs-*".to_string()],
            wait_for_metadata_version: Some(42),
            ..ClusterStateRequestWire::default()
        };
        let mut output = StreamOutput::new();
        request.write(&mut output);

        assert_eq!(
            ClusterStateRequestWire::read(output.freeze()).unwrap(),
            request
        );
    }

#[test]
fn cluster_health_request_wire_round_trips_default_cluster_subset() {
        let request = ClusterHealthRequestWire::default();
        let mut output = StreamOutput::new();
        request.write(&mut output).unwrap();

        assert_eq!(
            ClusterHealthRequestWire::read(output.freeze()).unwrap(),
            request
        );
    }

#[test]
fn cluster_health_request_rejects_unsupported_wait_and_detail_shapes() {
        let mut index_scoped = ClusterHealthRequestWire::default();
        index_scoped.indices.push("logs-*".to_string());
        assert!(matches!(
            index_scoped.validate_supported_subset(),
            Err(TransportActionWireError::UnsupportedWireShape {
                shape: "cluster health index scope",
                ..
            })
        ));

        let wait_status = ClusterHealthRequestWire {
            wait_for_status: Some(OPENSEARCH_CLUSTER_HEALTH_STATUS_GREEN),
            ..ClusterHealthRequestWire::default()
        };
        assert!(matches!(
            wait_status.validate_supported_subset(),
            Err(TransportActionWireError::UnsupportedWireShape {
                shape: "cluster health wait condition",
                ..
            })
        ));

        let shard_level = ClusterHealthRequestWire {
            level: 2,
            ..ClusterHealthRequestWire::default()
        };
        assert!(matches!(
            shard_level.validate_supported_subset(),
            Err(TransportActionWireError::UnsupportedWireShape {
                shape: "cluster health level",
                ..
            })
        ));
    }

#[test]
fn cluster_stats_request_wire_round_trips_and_rejects_execution_boundary() {
        let request = ClusterStatsRequestWire::default();
        let mut output = StreamOutput::new();
        request.write(&mut output);

        let decoded = ClusterStatsRequestWire::read(output.freeze()).unwrap();
        assert_eq!(decoded, request);
        assert!(matches!(
            decoded.reject_unsupported_execution(),
            Err(TransportActionWireError::UnsupportedWireShape {
                shape: "cluster stats execution",
                ..
            })
        ));
    }

#[test]
fn cluster_stats_request_rejects_unsupported_shapes() {
        let node_filter = ClusterStatsRequestWire {
            node_ids: vec!["node-a".to_string()],
            ..ClusterStatsRequestWire::default()
        };
        assert!(matches!(
            node_filter.reject_unsupported_execution(),
            Err(TransportActionWireError::UnsupportedWireShape {
                shape: "cluster stats node filter",
                ..
            })
        ));

        let timeout = ClusterStatsRequestWire {
            timeout: Some(TimeValueWire::seconds(1)),
            ..ClusterStatsRequestWire::default()
        };
        assert!(matches!(
            timeout.reject_unsupported_execution(),
            Err(TransportActionWireError::UnsupportedWireShape {
                shape: "cluster stats timeout",
                ..
            })
        ));

        let aggregate = ClusterStatsRequestWire {
            use_aggregated_node_level_responses: Some(true),
            ..ClusterStatsRequestWire::default()
        };
        assert!(matches!(
            aggregate.reject_unsupported_execution(),
            Err(TransportActionWireError::UnsupportedWireShape {
                shape: "cluster stats aggregated node responses",
                ..
            })
        ));

        let metric_selection = ClusterStatsRequestWire {
            compute_all_metrics: Some(false),
            ..ClusterStatsRequestWire::default()
        };
        assert!(matches!(
            metric_selection.reject_unsupported_execution(),
            Err(TransportActionWireError::UnsupportedWireShape {
                shape: "cluster stats metric selection",
                ..
            })
        ));

        let metric_flags = ClusterStatsRequestWire {
            metric_flags: 1,
            index_metric_flags: 2,
            ..ClusterStatsRequestWire::default()
        };
        assert!(matches!(
            metric_flags.reject_unsupported_execution(),
            Err(TransportActionWireError::UnsupportedWireShape {
                shape: "cluster stats metric flags",
                ..
            })
        ));
    }

#[test]
fn cluster_stats_request_rejects_concrete_node_payloads() {
        let mut output = StreamOutput::new();
        write_parent_task_id(&mut output, "", None);
        output.write_string_array(&[]);
        output.write_bool(true);

        assert!(matches!(
            ClusterStatsRequestWire::read(output.freeze()),
            Err(TransportActionWireError::UnsupportedWireShape {
                shape: "cluster stats concrete nodes",
                ..
            })
        ));
    }

#[test]
fn cluster_stats_transport_messages_bind_rejected_action_frame() {
        let request = ClusterStatsRequestWire::default();
        let mut frame =
            build_cluster_stats_request_message(13, opensearch_3_7_0_transport(), &request).unwrap();
        let DecodedFrame::Message(message) = decode_frame(&mut frame).unwrap().unwrap() else {
            panic!("expected cluster stats request message");
        };
        assert_eq!(
            read_cluster_stats_request_message(&message).unwrap(),
            request
        );
        assert!(matches!(
            read_cluster_stats_request_message(&message)
                .unwrap()
                .reject_unsupported_execution(),
            Err(TransportActionWireError::UnsupportedWireShape {
                shape: "cluster stats execution",
                ..
            })
        ));
    }

#[test]
fn nodes_info_request_wire_round_trips_and_rejects_execution_boundary() {
        let request = NodesInfoRequestWire::default();
        assert_eq!(
            request.requested_metrics,
            nodes_info_default_metrics()
        );
        let mut output = StreamOutput::new();
        request.write(&mut output);

        let decoded = NodesInfoRequestWire::read(output.freeze()).unwrap();
        assert_eq!(decoded, request);
        assert!(matches!(
            decoded.reject_unsupported_execution(),
            Err(TransportActionWireError::UnsupportedWireShape {
                shape: "nodes info execution",
                ..
            })
        ));
    }

#[test]
fn nodes_info_request_rejects_unsupported_shapes() {
        let node_filter = NodesInfoRequestWire {
            node_ids: vec!["node-a".to_string()],
            ..NodesInfoRequestWire::default()
        };
        assert!(matches!(
            node_filter.reject_unsupported_execution(),
            Err(TransportActionWireError::UnsupportedWireShape {
                shape: "nodes info node filter",
                ..
            })
        ));

        let timeout = NodesInfoRequestWire {
            timeout: Some(TimeValueWire::seconds(1)),
            ..NodesInfoRequestWire::default()
        };
        assert!(matches!(
            timeout.reject_unsupported_execution(),
            Err(TransportActionWireError::UnsupportedWireShape {
                shape: "nodes info timeout",
                ..
            })
        ));

        let requested_metrics = NodesInfoRequestWire {
            requested_metrics: vec!["settings".to_string()],
            ..NodesInfoRequestWire::default()
        };
        assert!(matches!(
            requested_metrics.reject_unsupported_execution(),
            Err(TransportActionWireError::UnsupportedWireShape {
                shape: "nodes info requested metrics",
                ..
            })
        ));
    }

#[test]
fn nodes_info_request_rejects_concrete_node_payloads() {
        let mut output = StreamOutput::new();
        write_parent_task_id(&mut output, "", None);
        output.write_string_array(&[]);
        output.write_bool(true);

        assert!(matches!(
            NodesInfoRequestWire::read(output.freeze()),
            Err(TransportActionWireError::UnsupportedWireShape {
                shape: "nodes info concrete nodes",
                ..
            })
        ));
    }

#[test]
fn nodes_info_transport_messages_bind_rejected_action_frame() {
        let request = NodesInfoRequestWire::default();
        let mut frame =
            build_nodes_info_request_message(29, opensearch_3_7_0_transport(), &request).unwrap();
        let DecodedFrame::Message(message) = decode_frame(&mut frame).unwrap().unwrap() else {
            panic!("expected nodes info request message");
        };
        assert_eq!(read_nodes_info_request_message(&message).unwrap(), request);
        assert!(matches!(
            read_nodes_info_request_message(&message)
                .unwrap()
                .reject_unsupported_execution(),
            Err(TransportActionWireError::UnsupportedWireShape {
                shape: "nodes info execution",
                ..
            })
        ));
    }

#[test]
fn nodes_stats_request_wire_round_trips_and_rejects_execution_boundary() {
        let request = NodesStatsRequestWire::default();
        assert_eq!(request.indices.flags, OPENSEARCH_COMMON_STATS_DEFAULT_FLAGS);
        let mut output = StreamOutput::new();
        request.write(&mut output);

        let decoded = NodesStatsRequestWire::read(output.freeze()).unwrap();
        assert_eq!(decoded, request);
        assert!(matches!(
            decoded.reject_unsupported_execution(),
            Err(TransportActionWireError::UnsupportedWireShape {
                shape: "nodes stats execution",
                ..
            })
        ));
    }

#[test]
fn nodes_stats_request_rejects_unsupported_shapes() {
        let node_filter = NodesStatsRequestWire {
            node_ids: vec!["node-a".to_string()],
            ..NodesStatsRequestWire::default()
        };
        assert!(matches!(
            node_filter.reject_unsupported_execution(),
            Err(TransportActionWireError::UnsupportedWireShape {
                shape: "nodes stats node filter",
                ..
            })
        ));

        let timeout = NodesStatsRequestWire {
            timeout: Some(TimeValueWire::seconds(1)),
            ..NodesStatsRequestWire::default()
        };
        assert!(matches!(
            timeout.reject_unsupported_execution(),
            Err(TransportActionWireError::UnsupportedWireShape {
                shape: "nodes stats timeout",
                ..
            })
        ));

        let indices_subset = NodesStatsRequestWire {
            indices: CommonStatsFlagsWire {
                flags: 1 << 9,
                ..CommonStatsFlagsWire::default()
            },
            ..NodesStatsRequestWire::default()
        };
        assert!(matches!(
            indices_subset.reject_unsupported_execution(),
            Err(TransportActionWireError::UnsupportedWireShape {
                shape: "nodes stats indices flags",
                ..
            })
        ));

        let requested_metrics = NodesStatsRequestWire {
            requested_metrics: vec!["os".to_string(), "jvm".to_string()],
            ..NodesStatsRequestWire::default()
        };
        assert!(matches!(
            requested_metrics.reject_unsupported_execution(),
            Err(TransportActionWireError::UnsupportedWireShape {
                shape: "nodes stats requested metrics",
                ..
            })
        ));
    }

#[test]
fn nodes_stats_request_rejects_concrete_node_payloads() {
        let mut output = StreamOutput::new();
        write_parent_task_id(&mut output, "", None);
        output.write_string_array(&[]);
        output.write_bool(true);

        assert!(matches!(
            NodesStatsRequestWire::read(output.freeze()),
            Err(TransportActionWireError::UnsupportedWireShape {
                shape: "nodes stats concrete nodes",
                ..
            })
        ));
    }

#[test]
fn nodes_stats_transport_messages_bind_rejected_action_frame() {
        let request = NodesStatsRequestWire::default();
        let mut frame =
            build_nodes_stats_request_message(19, opensearch_3_7_0_transport(), &request).unwrap();
        let DecodedFrame::Message(message) = decode_frame(&mut frame).unwrap().unwrap() else {
            panic!("expected nodes stats request message");
        };
        assert_eq!(read_nodes_stats_request_message(&message).unwrap(), request);
        assert!(matches!(
            read_nodes_stats_request_message(&message)
                .unwrap()
                .reject_unsupported_execution(),
            Err(TransportActionWireError::UnsupportedWireShape {
                shape: "nodes stats execution",
                ..
            })
        ));
    }

#[test]
fn nodes_usage_request_wire_round_trips_and_rejects_execution_boundary() {
        let request = NodesUsageRequestWire::default();
        let mut output = StreamOutput::new();
        request.write(&mut output);

        let decoded = NodesUsageRequestWire::read(output.freeze()).unwrap();
        assert_eq!(decoded, request);
        assert!(matches!(
            decoded.reject_unsupported_execution(),
            Err(TransportActionWireError::UnsupportedWireShape {
                shape: "nodes usage execution",
                ..
            })
        ));
    }

#[test]
fn nodes_usage_request_rejects_unsupported_shapes() {
        let node_filter = NodesUsageRequestWire {
            node_ids: vec!["node-a".to_string()],
            ..NodesUsageRequestWire::default()
        };
        assert!(matches!(
            node_filter.reject_unsupported_execution(),
            Err(TransportActionWireError::UnsupportedWireShape {
                shape: "nodes usage node filter",
                ..
            })
        ));

        let timeout = NodesUsageRequestWire {
            timeout: Some(TimeValueWire::seconds(1)),
            ..NodesUsageRequestWire::default()
        };
        assert!(matches!(
            timeout.reject_unsupported_execution(),
            Err(TransportActionWireError::UnsupportedWireShape {
                shape: "nodes usage timeout",
                ..
            })
        ));

        let rest_actions = NodesUsageRequestWire {
            rest_actions: true,
            ..NodesUsageRequestWire::default()
        };
        assert!(matches!(
            rest_actions.reject_unsupported_execution(),
            Err(TransportActionWireError::UnsupportedWireShape {
                shape: "nodes usage rest actions",
                ..
            })
        ));

        let aggregations = NodesUsageRequestWire {
            aggregations: true,
            ..NodesUsageRequestWire::default()
        };
        assert!(matches!(
            aggregations.reject_unsupported_execution(),
            Err(TransportActionWireError::UnsupportedWireShape {
                shape: "nodes usage aggregations",
                ..
            })
        ));
    }

#[test]
fn nodes_usage_request_rejects_concrete_node_payloads() {
        let mut output = StreamOutput::new();
        write_parent_task_id(&mut output, "", None);
        output.write_string_array(&[]);
        output.write_bool(true);

        assert!(matches!(
            NodesUsageRequestWire::read(output.freeze()),
            Err(TransportActionWireError::UnsupportedWireShape {
                shape: "nodes usage concrete nodes",
                ..
            })
        ));
    }

#[test]
fn nodes_usage_transport_messages_bind_rejected_action_frame() {
        let request = NodesUsageRequestWire::default();
        let mut frame =
            build_nodes_usage_request_message(31, opensearch_3_7_0_transport(), &request).unwrap();
        let DecodedFrame::Message(message) = decode_frame(&mut frame).unwrap().unwrap() else {
            panic!("expected nodes usage request message");
        };
        assert_eq!(read_nodes_usage_request_message(&message).unwrap(), request);
        assert!(matches!(
            read_nodes_usage_request_message(&message)
                .unwrap()
                .reject_unsupported_execution(),
            Err(TransportActionWireError::UnsupportedWireShape {
                shape: "nodes usage execution",
                ..
            })
        ));
    }

#[test]
fn nodes_hot_threads_request_wire_round_trips_and_rejects_execution_boundary() {
        let request = NodesHotThreadsRequestWire::default();
        let mut output = StreamOutput::new();
        request.write(&mut output);

        let decoded = NodesHotThreadsRequestWire::read(output.freeze()).unwrap();
        assert_eq!(decoded, request);
        assert!(matches!(
            decoded.reject_unsupported_execution(),
            Err(TransportActionWireError::UnsupportedWireShape {
                shape: "nodes hot threads execution",
                ..
            })
        ));
    }

#[test]
fn nodes_hot_threads_request_rejects_unsupported_shapes() {
        let node_filter = NodesHotThreadsRequestWire {
            node_ids: vec!["node-a".to_string()],
            ..NodesHotThreadsRequestWire::default()
        };
        assert!(matches!(
            node_filter.reject_unsupported_execution(),
            Err(TransportActionWireError::UnsupportedWireShape {
                shape: "nodes hot threads node filter",
                ..
            })
        ));

        let timeout = NodesHotThreadsRequestWire {
            timeout: Some(TimeValueWire::seconds(1)),
            ..NodesHotThreadsRequestWire::default()
        };
        assert!(matches!(
            timeout.reject_unsupported_execution(),
            Err(TransportActionWireError::UnsupportedWireShape {
                shape: "nodes hot threads timeout",
                ..
            })
        ));

        let thread_count = NodesHotThreadsRequestWire {
            threads: 5,
            ..NodesHotThreadsRequestWire::default()
        };
        assert!(matches!(
            thread_count.reject_unsupported_execution(),
            Err(TransportActionWireError::UnsupportedWireShape {
                shape: "nodes hot threads thread count",
                ..
            })
        ));

        let idle_threads = NodesHotThreadsRequestWire {
            ignore_idle_threads: false,
            ..NodesHotThreadsRequestWire::default()
        };
        assert!(matches!(
            idle_threads.reject_unsupported_execution(),
            Err(TransportActionWireError::UnsupportedWireShape {
                shape: "nodes hot threads idle thread inclusion",
                ..
            })
        ));

        let hot_threads_type = NodesHotThreadsRequestWire {
            hot_threads_type: "wait".to_string(),
            ..NodesHotThreadsRequestWire::default()
        };
        assert!(matches!(
            hot_threads_type.reject_unsupported_execution(),
            Err(TransportActionWireError::UnsupportedWireShape {
                shape: "nodes hot threads type",
                ..
            })
        ));

        let interval = NodesHotThreadsRequestWire {
            interval: TimeValueWire::seconds(1),
            ..NodesHotThreadsRequestWire::default()
        };
        assert!(matches!(
            interval.reject_unsupported_execution(),
            Err(TransportActionWireError::UnsupportedWireShape {
                shape: "nodes hot threads interval",
                ..
            })
        ));

        let snapshots = NodesHotThreadsRequestWire {
            snapshots: 3,
            ..NodesHotThreadsRequestWire::default()
        };
        assert!(matches!(
            snapshots.reject_unsupported_execution(),
            Err(TransportActionWireError::UnsupportedWireShape {
                shape: "nodes hot threads snapshots",
                ..
            })
        ));
    }

#[test]
fn nodes_hot_threads_request_rejects_concrete_node_payloads() {
        let mut output = StreamOutput::new();
        write_parent_task_id(&mut output, "", None);
        output.write_string_array(&[]);
        output.write_bool(true);

        assert!(matches!(
            NodesHotThreadsRequestWire::read(output.freeze()),
            Err(TransportActionWireError::UnsupportedWireShape {
                shape: "nodes hot threads concrete nodes",
                ..
            })
        ));
    }

#[test]
fn nodes_hot_threads_transport_messages_bind_rejected_action_frame() {
        let request = NodesHotThreadsRequestWire::default();
        let mut frame =
            build_nodes_hot_threads_request_message(33, opensearch_3_7_0_transport(), &request)
                .unwrap();
        let DecodedFrame::Message(message) = decode_frame(&mut frame).unwrap().unwrap() else {
            panic!("expected nodes hot threads request message");
        };
        assert_eq!(
            read_nodes_hot_threads_request_message(&message).unwrap(),
            request
        );
        assert!(matches!(
            read_nodes_hot_threads_request_message(&message)
                .unwrap()
                .reject_unsupported_execution(),
            Err(TransportActionWireError::UnsupportedWireShape {
                shape: "nodes hot threads execution",
                ..
            })
        ));
    }

#[test]
fn opensearch_indices_stats_request_wire_round_trips_and_rejects_execution_boundary() {
        let request = OpenSearchIndicesStatsRequestWire::default();
        let mut output = StreamOutput::new();
        request.write(&mut output);

        let decoded = OpenSearchIndicesStatsRequestWire::read(output.freeze()).unwrap();
        assert_eq!(decoded, request);
        assert!(matches!(
            decoded.reject_unsupported_execution(),
            Err(TransportActionWireError::UnsupportedWireShape {
                shape: "indices stats execution",
                ..
            })
        ));
    }

#[test]
fn opensearch_indices_stats_request_rejects_unsupported_shapes() {
        let index_filter = OpenSearchIndicesStatsRequestWire {
            indices: vec!["logs-*".to_string()],
            ..OpenSearchIndicesStatsRequestWire::default()
        };
        assert!(matches!(
            index_filter.reject_unsupported_execution(),
            Err(TransportActionWireError::UnsupportedWireShape {
                shape: "indices stats index filter",
                ..
            })
        ));

        let custom_options = OpenSearchIndicesStatsRequestWire {
            indices_options: OpenSearchIndicesOptionsWire {
                expand_hidden: true,
                ..OpenSearchIndicesOptionsWire::strict_expand_open_forbid_closed()
            },
            ..OpenSearchIndicesStatsRequestWire::default()
        };
        assert!(matches!(
            custom_options.reject_unsupported_execution(),
            Err(TransportActionWireError::UnsupportedWireShape {
                shape: "indices stats indices options",
                ..
            })
        ));

        let flags = OpenSearchIndicesStatsRequestWire {
            flags: CommonStatsFlagsWire {
                flags: 1 << 9,
                ..CommonStatsFlagsWire::default()
            },
            ..OpenSearchIndicesStatsRequestWire::default()
        };
        assert!(matches!(
            flags.reject_unsupported_execution(),
            Err(TransportActionWireError::UnsupportedWireShape {
                shape: "indices stats flags",
                ..
            })
        ));
    }

#[test]
fn opensearch_indices_stats_transport_messages_bind_rejected_action_frame() {
        let request = OpenSearchIndicesStatsRequestWire::default();
        let mut frame = build_opensearch_indices_stats_request_message(
            23,
            opensearch_3_7_0_transport(),
            &request,
        )
        .unwrap();
        let DecodedFrame::Message(message) = decode_frame(&mut frame).unwrap().unwrap() else {
            panic!("expected indices stats request message");
        };
        assert_eq!(
            read_opensearch_indices_stats_request_message(&message).unwrap(),
            request
        );
        assert!(matches!(
            read_opensearch_indices_stats_request_message(&message)
                .unwrap()
                .reject_unsupported_execution(),
            Err(TransportActionWireError::UnsupportedWireShape {
                shape: "indices stats execution",
                ..
            })
        ));
    }

#[test]
fn update_settings_request_and_ack_response_wire_round_trip() {
        let request = ClusterUpdateSettingsRequestWire {
            transient_settings: StringMap::from_pairs(vec![("cluster.routing.allocation.enable".to_string(), "all".to_string())]),
            persistent_settings: StringMap::from_pairs(vec![("cluster.max_shards_per_node".to_string(), "1000".to_string())]),
            ..ClusterUpdateSettingsRequestWire::default()
        };
        let mut output = StreamOutput::new();
        request.write(&mut output);
        assert_eq!(
            ClusterUpdateSettingsRequestWire::read(output.freeze()).unwrap(),
            request
        );

        let response = AcknowledgedResponseWire { acknowledged: true };
        let mut output = StreamOutput::new();
        response.write(&mut output);
        assert_eq!(
            AcknowledgedResponseWire::read(output.freeze()).unwrap(),
            response
        );
    }

#[test]
fn update_settings_request_rejects_unsupported_transport_execution() {
        let default_request = ClusterUpdateSettingsRequestWire::default();
        assert!(matches!(
            default_request.reject_unsupported_execution(),
            Err(TransportActionWireError::UnsupportedWireShape {
                shape: "cluster update settings execution",
                ..
            })
        ));

        let cluster_manager_timeout = ClusterUpdateSettingsRequestWire {
            cluster_manager_timeout: TimeValueWire::seconds(10),
            ..ClusterUpdateSettingsRequestWire::default()
        };
        assert!(matches!(
            cluster_manager_timeout.reject_unsupported_execution(),
            Err(TransportActionWireError::UnsupportedWireShape {
                shape: "cluster update settings cluster-manager timeout",
                ..
            })
        ));

        let ack_timeout = ClusterUpdateSettingsRequestWire {
            ack_timeout: TimeValueWire::seconds(10),
            ..ClusterUpdateSettingsRequestWire::default()
        };
        assert!(matches!(
            ack_timeout.reject_unsupported_execution(),
            Err(TransportActionWireError::UnsupportedWireShape {
                shape: "cluster update settings ack timeout",
                ..
            })
        ));

        let transient_settings = ClusterUpdateSettingsRequestWire {
            transient_settings: StringMap::from_pairs(vec![("cluster.routing.allocation.enable".to_string(), "all".to_string())]),
            ..ClusterUpdateSettingsRequestWire::default()
        };
        assert!(matches!(
            transient_settings.reject_unsupported_execution(),
            Err(TransportActionWireError::UnsupportedWireShape {
                shape: "cluster update settings transient settings",
                ..
            })
        ));

        let persistent_settings = ClusterUpdateSettingsRequestWire {
            persistent_settings: StringMap::from_pairs(vec![("cluster.max_shards_per_node".to_string(), "1000".to_string())]),
            ..ClusterUpdateSettingsRequestWire::default()
        };
        assert!(matches!(
            persistent_settings.reject_unsupported_execution(),
            Err(TransportActionWireError::UnsupportedWireShape {
                shape: "cluster update settings persistent settings",
                ..
            })
        ));
    }

#[test]
fn update_settings_transport_messages_bind_rejected_action_frame() {
        let request = ClusterUpdateSettingsRequestWire::default();
        let mut frame =
            build_cluster_update_settings_request_message(32, opensearch_3_7_0_transport(), &request)
                .unwrap();
        let DecodedFrame::Message(message) = decode_frame(&mut frame).unwrap().unwrap() else {
            panic!("expected cluster update settings request message");
        };
        assert_eq!(
            read_cluster_update_settings_request_message(&message).unwrap(),
            request
        );
        assert!(matches!(
            read_cluster_update_settings_request_message(&message)
                .unwrap()
                .reject_unsupported_execution(),
            Err(TransportActionWireError::UnsupportedWireShape {
                shape: "cluster update settings execution",
                ..
            })
        ));
    }

#[test]
fn get_repositories_request_wire_round_trips_and_rejects_execution_boundary() {
        let request = GetRepositoriesRequestWire::default();
        let mut output = StreamOutput::new();
        request.write(&mut output);

        let decoded = GetRepositoriesRequestWire::read(output.freeze()).unwrap();
        assert_eq!(decoded, request);
        assert!(matches!(
            decoded.reject_unsupported_execution(),
            Err(TransportActionWireError::UnsupportedWireShape {
                shape: "get repositories execution",
                ..
            })
        ));
    }

#[test]
fn get_repositories_request_rejects_unsupported_shapes() {
        let timeout = GetRepositoriesRequestWire {
            cluster_manager_timeout: TimeValueWire::seconds(10),
            ..GetRepositoriesRequestWire::default()
        };
        assert!(matches!(
            timeout.reject_unsupported_execution(),
            Err(TransportActionWireError::UnsupportedWireShape {
                shape: "get repositories cluster-manager timeout",
                ..
            })
        ));

        let selection = GetRepositoriesRequestWire {
            repositories: vec!["repo-a".to_string()],
            ..GetRepositoriesRequestWire::default()
        };
        assert!(matches!(
            selection.reject_unsupported_execution(),
            Err(TransportActionWireError::UnsupportedWireShape {
                shape: "get repositories selection",
                ..
            })
        ));

        let local = GetRepositoriesRequestWire {
            local: true,
            ..GetRepositoriesRequestWire::default()
        };
        assert!(matches!(
            local.reject_unsupported_execution(),
            Err(TransportActionWireError::UnsupportedWireShape {
                shape: "get repositories local",
                ..
            })
        ));
    }

#[test]
fn get_repositories_transport_messages_bind_rejected_action_frame() {
        let request = GetRepositoriesRequestWire::default();
        let mut frame =
            build_get_repositories_request_message(34, opensearch_3_7_0_transport(), &request)
                .unwrap();
        let DecodedFrame::Message(message) = decode_frame(&mut frame).unwrap().unwrap() else {
            panic!("expected get repositories request message");
        };
        assert_eq!(
            read_get_repositories_request_message(&message).unwrap(),
            request
        );
        assert!(matches!(
            read_get_repositories_request_message(&message)
                .unwrap()
                .reject_unsupported_execution(),
            Err(TransportActionWireError::UnsupportedWireShape {
                shape: "get repositories execution",
                ..
            })
        ));
    }

#[test]
fn opensearch_get_mappings_request_wire_round_trips_and_rejects_execution_boundary() {
        let request = OpenSearchGetMappingsRequestWire::default();
        let mut output = StreamOutput::new();
        request.write(&mut output);

        let decoded = OpenSearchGetMappingsRequestWire::read(output.freeze()).unwrap();
        assert_eq!(decoded, request);
        assert!(matches!(
            decoded.reject_unsupported_execution(),
            Err(TransportActionWireError::UnsupportedWireShape {
                shape: "get mappings execution",
                ..
            })
        ));
    }

#[test]
fn opensearch_get_mappings_request_rejects_unsupported_shapes() {
        let timeout = OpenSearchGetMappingsRequestWire {
            cluster_manager_timeout: TimeValueWire::seconds(10),
            ..OpenSearchGetMappingsRequestWire::default()
        };
        assert!(matches!(
            timeout.reject_unsupported_execution(),
            Err(TransportActionWireError::UnsupportedWireShape {
                shape: "get mappings cluster-manager timeout",
                ..
            })
        ));

        let index_filter = OpenSearchGetMappingsRequestWire {
            indices: vec!["logs-*".to_string()],
            ..OpenSearchGetMappingsRequestWire::default()
        };
        assert!(matches!(
            index_filter.reject_unsupported_execution(),
            Err(TransportActionWireError::UnsupportedWireShape {
                shape: "get mappings index filter",
                ..
            })
        ));

        let custom_options = OpenSearchGetMappingsRequestWire {
            indices_options: OpenSearchIndicesOptionsWire {
                ignore_unavailable: true,
                ..OpenSearchIndicesOptionsWire::strict_expand_open()
            },
            ..OpenSearchGetMappingsRequestWire::default()
        };
        assert!(matches!(
            custom_options.reject_unsupported_execution(),
            Err(TransportActionWireError::UnsupportedWireShape {
                shape: "get mappings indices options",
                ..
            })
        ));

        let local = OpenSearchGetMappingsRequestWire {
            local: true,
            ..OpenSearchGetMappingsRequestWire::default()
        };
        assert!(matches!(
            local.reject_unsupported_execution(),
            Err(TransportActionWireError::UnsupportedWireShape {
                shape: "get mappings local",
                ..
            })
        ));
    }

#[test]
fn opensearch_get_mappings_transport_messages_bind_rejected_action_frame() {
        let request = OpenSearchGetMappingsRequestWire::default();
        let mut frame =
            build_opensearch_get_mappings_request_message(35, opensearch_3_7_0_transport(), &request)
                .unwrap();
        let DecodedFrame::Message(message) = decode_frame(&mut frame).unwrap().unwrap() else {
            panic!("expected get mappings request message");
        };
        assert_eq!(
            read_opensearch_get_mappings_request_message(&message).unwrap(),
            request
        );
        assert!(matches!(
            read_opensearch_get_mappings_request_message(&message)
                .unwrap()
                .reject_unsupported_execution(),
            Err(TransportActionWireError::UnsupportedWireShape {
                shape: "get mappings execution",
                ..
            })
        ));
    }

#[test]
fn opensearch_get_field_mappings_request_wire_round_trips_and_rejects_execution_boundary() {
        let request = OpenSearchGetFieldMappingsRequestWire::default();
        let mut output = StreamOutput::new();
        request.write(&mut output);

        let decoded = OpenSearchGetFieldMappingsRequestWire::read(output.freeze()).unwrap();
        assert_eq!(decoded, request);
        assert!(matches!(
            decoded.reject_unsupported_execution(),
            Err(TransportActionWireError::UnsupportedWireShape {
                shape: "get field mappings execution",
                ..
            })
        ));
    }

#[test]
fn opensearch_get_field_mappings_request_rejects_unsupported_shapes() {
        let index_filter = OpenSearchGetFieldMappingsRequestWire {
            indices: vec!["logs-*".to_string()],
            ..OpenSearchGetFieldMappingsRequestWire::default()
        };
        assert!(matches!(
            index_filter.reject_unsupported_execution(),
            Err(TransportActionWireError::UnsupportedWireShape {
                shape: "get field mappings index filter",
                ..
            })
        ));

        let custom_options = OpenSearchGetFieldMappingsRequestWire {
            indices_options: OpenSearchIndicesOptionsWire {
                ignore_unavailable: true,
                ..OpenSearchIndicesOptionsWire::strict_expand_open()
            },
            ..OpenSearchGetFieldMappingsRequestWire::default()
        };
        assert!(matches!(
            custom_options.reject_unsupported_execution(),
            Err(TransportActionWireError::UnsupportedWireShape {
                shape: "get field mappings indices options",
                ..
            })
        ));

        let local = OpenSearchGetFieldMappingsRequestWire {
            local: true,
            ..OpenSearchGetFieldMappingsRequestWire::default()
        };
        assert!(matches!(
            local.reject_unsupported_execution(),
            Err(TransportActionWireError::UnsupportedWireShape {
                shape: "get field mappings local",
                ..
            })
        ));

        let field_filter = OpenSearchGetFieldMappingsRequestWire {
            fields: vec!["message".to_string()],
            ..OpenSearchGetFieldMappingsRequestWire::default()
        };
        assert!(matches!(
            field_filter.reject_unsupported_execution(),
            Err(TransportActionWireError::UnsupportedWireShape {
                shape: "get field mappings field filter",
                ..
            })
        ));

        let include_defaults = OpenSearchGetFieldMappingsRequestWire {
            include_defaults: true,
            ..OpenSearchGetFieldMappingsRequestWire::default()
        };
        assert!(matches!(
            include_defaults.reject_unsupported_execution(),
            Err(TransportActionWireError::UnsupportedWireShape {
                shape: "get field mappings include defaults",
                ..
            })
        ));
    }

#[test]
fn opensearch_get_field_mappings_transport_messages_bind_rejected_action_frame() {
        let request = OpenSearchGetFieldMappingsRequestWire::default();
        let mut frame = build_opensearch_get_field_mappings_request_message(
            36,
            opensearch_3_7_0_transport(),
            &request,
        )
        .unwrap();
        let DecodedFrame::Message(message) = decode_frame(&mut frame).unwrap().unwrap() else {
            panic!("expected get field mappings request message");
        };
        assert_eq!(
            read_opensearch_get_field_mappings_request_message(&message).unwrap(),
            request
        );
        assert!(matches!(
            read_opensearch_get_field_mappings_request_message(&message)
                .unwrap()
                .reject_unsupported_execution(),
            Err(TransportActionWireError::UnsupportedWireShape {
                shape: "get field mappings execution",
                ..
            })
        ));
    }

#[test]
fn opensearch_get_aliases_request_wire_round_trips_and_rejects_execution_boundary() {
        let request = OpenSearchGetAliasesRequestWire::default();
        let mut output = StreamOutput::new();
        request.write(&mut output);

        let decoded = OpenSearchGetAliasesRequestWire::read(output.freeze()).unwrap();
        assert_eq!(decoded, request);
        assert!(matches!(
            decoded.reject_unsupported_execution(),
            Err(TransportActionWireError::UnsupportedWireShape {
                shape: "get aliases execution",
                ..
            })
        ));
    }

#[test]
fn opensearch_get_aliases_request_rejects_unsupported_shapes() {
        let timeout = OpenSearchGetAliasesRequestWire {
            cluster_manager_timeout: TimeValueWire::seconds(10),
            ..OpenSearchGetAliasesRequestWire::default()
        };
        assert!(matches!(
            timeout.reject_unsupported_execution(),
            Err(TransportActionWireError::UnsupportedWireShape {
                shape: "get aliases cluster-manager timeout",
                ..
            })
        ));

        let index_filter = OpenSearchGetAliasesRequestWire {
            indices: vec!["logs-*".to_string()],
            ..OpenSearchGetAliasesRequestWire::default()
        };
        assert!(matches!(
            index_filter.reject_unsupported_execution(),
            Err(TransportActionWireError::UnsupportedWireShape {
                shape: "get aliases index filter",
                ..
            })
        ));

        let alias_filter = OpenSearchGetAliasesRequestWire {
            aliases: vec!["logs-read".to_string()],
            ..OpenSearchGetAliasesRequestWire::default()
        };
        assert!(matches!(
            alias_filter.reject_unsupported_execution(),
            Err(TransportActionWireError::UnsupportedWireShape {
                shape: "get aliases alias filter",
                ..
            })
        ));

        let custom_options = OpenSearchGetAliasesRequestWire {
            indices_options: OpenSearchIndicesOptionsWire {
                ignore_unavailable: true,
                ..OpenSearchIndicesOptionsWire::strict_expand_hidden()
            },
            ..OpenSearchGetAliasesRequestWire::default()
        };
        assert!(matches!(
            custom_options.reject_unsupported_execution(),
            Err(TransportActionWireError::UnsupportedWireShape {
                shape: "get aliases indices options",
                ..
            })
        ));

        let local = OpenSearchGetAliasesRequestWire {
            local: true,
            ..OpenSearchGetAliasesRequestWire::default()
        };
        assert!(matches!(
            local.reject_unsupported_execution(),
            Err(TransportActionWireError::UnsupportedWireShape {
                shape: "get aliases local",
                ..
            })
        ));

        let original_alias_filter = OpenSearchGetAliasesRequestWire {
            original_aliases: vec!["logs-*".to_string()],
            ..OpenSearchGetAliasesRequestWire::default()
        };
        assert!(matches!(
            original_alias_filter.reject_unsupported_execution(),
            Err(TransportActionWireError::UnsupportedWireShape {
                shape: "get aliases original alias filter",
                ..
            })
        ));
    }

#[test]
fn opensearch_get_aliases_transport_messages_bind_rejected_action_frame() {
        let request = OpenSearchGetAliasesRequestWire::default();
        let mut frame =
            build_opensearch_get_aliases_request_message(37, opensearch_3_7_0_transport(), &request)
                .unwrap();
        let DecodedFrame::Message(message) = decode_frame(&mut frame).unwrap().unwrap() else {
            panic!("expected get aliases request message");
        };
        assert_eq!(
            read_opensearch_get_aliases_request_message(&message).unwrap(),
            request
        );
        assert!(matches!(
            read_opensearch_get_aliases_request_message(&message)
                .unwrap()
                .reject_unsupported_execution(),
            Err(TransportActionWireError::UnsupportedWireShape {
                shape: "get aliases execution",
                ..
            })
        ));
    }

#[test]
fn opensearch_get_settings_request_wire_round_trips_and_rejects_execution_boundary() {
        let request = OpenSearchGetSettingsRequestWire::default();
        let mut output = StreamOutput::new();
        request.write(&mut output);

        let decoded = OpenSearchGetSettingsRequestWire::read(output.freeze()).unwrap();
        assert_eq!(decoded, request);
        assert!(matches!(
            decoded.reject_unsupported_execution(),
            Err(TransportActionWireError::UnsupportedWireShape {
                shape: "get settings execution",
                ..
            })
        ));
    }

#[test]
fn opensearch_get_settings_request_rejects_unsupported_shapes() {
        let timeout = OpenSearchGetSettingsRequestWire {
            cluster_manager_timeout: TimeValueWire::seconds(10),
            ..OpenSearchGetSettingsRequestWire::default()
        };
        assert!(matches!(
            timeout.reject_unsupported_execution(),
            Err(TransportActionWireError::UnsupportedWireShape {
                shape: "get settings cluster-manager timeout",
                ..
            })
        ));

        let index_filter = OpenSearchGetSettingsRequestWire {
            indices: vec!["logs-*".to_string()],
            ..OpenSearchGetSettingsRequestWire::default()
        };
        assert!(matches!(
            index_filter.reject_unsupported_execution(),
            Err(TransportActionWireError::UnsupportedWireShape {
                shape: "get settings index filter",
                ..
            })
        ));

        let local = OpenSearchGetSettingsRequestWire {
            local: true,
            ..OpenSearchGetSettingsRequestWire::default()
        };
        assert!(matches!(
            local.reject_unsupported_execution(),
            Err(TransportActionWireError::UnsupportedWireShape {
                shape: "get settings local",
                ..
            })
        ));

        let custom_options = OpenSearchGetSettingsRequestWire {
            indices_options: OpenSearchIndicesOptionsWire {
                allow_no_indices: false,
                ..OpenSearchIndicesOptionsWire::expand_open_closed_allow_no_indices()
            },
            ..OpenSearchGetSettingsRequestWire::default()
        };
        assert!(matches!(
            custom_options.reject_unsupported_execution(),
            Err(TransportActionWireError::UnsupportedWireShape {
                shape: "get settings indices options",
                ..
            })
        ));

        let name_filter = OpenSearchGetSettingsRequestWire {
            names: vec!["index.number_of_shards".to_string()],
            ..OpenSearchGetSettingsRequestWire::default()
        };
        assert!(matches!(
            name_filter.reject_unsupported_execution(),
            Err(TransportActionWireError::UnsupportedWireShape {
                shape: "get settings name filter",
                ..
            })
        ));

        let human_readable = OpenSearchGetSettingsRequestWire {
            human_readable: true,
            ..OpenSearchGetSettingsRequestWire::default()
        };
        assert!(matches!(
            human_readable.reject_unsupported_execution(),
            Err(TransportActionWireError::UnsupportedWireShape {
                shape: "get settings human readable",
                ..
            })
        ));

        let include_defaults = OpenSearchGetSettingsRequestWire {
            include_defaults: true,
            ..OpenSearchGetSettingsRequestWire::default()
        };
        assert!(matches!(
            include_defaults.reject_unsupported_execution(),
            Err(TransportActionWireError::UnsupportedWireShape {
                shape: "get settings include defaults",
                ..
            })
        ));
    }

#[test]
fn opensearch_get_settings_transport_messages_bind_rejected_action_frame() {
        let request = OpenSearchGetSettingsRequestWire::default();
        let mut frame =
            build_opensearch_get_settings_request_message(38, opensearch_3_7_0_transport(), &request)
                .unwrap();
        let DecodedFrame::Message(message) = decode_frame(&mut frame).unwrap().unwrap() else {
            panic!("expected get settings request message");
        };
        assert_eq!(
            read_opensearch_get_settings_request_message(&message).unwrap(),
            request
        );
        assert!(matches!(
            read_opensearch_get_settings_request_message(&message)
                .unwrap()
                .reject_unsupported_execution(),
            Err(TransportActionWireError::UnsupportedWireShape {
                shape: "get settings execution",
                ..
            })
        ));
    }

#[test]
fn opensearch_cluster_search_shards_request_wire_round_trips_and_rejects_execution_boundary() {
        let request = OpenSearchClusterSearchShardsRequestWire::default();
        let mut output = StreamOutput::new();
        request.write(&mut output);

        let decoded = OpenSearchClusterSearchShardsRequestWire::read(output.freeze()).unwrap();
        assert_eq!(decoded, request);
        assert!(matches!(
            decoded.reject_unsupported_execution(),
            Err(TransportActionWireError::UnsupportedWireShape {
                shape: "cluster search shards execution",
                ..
            })
        ));
    }

#[test]
fn opensearch_cluster_search_shards_request_rejects_unsupported_shapes() {
        let timeout = OpenSearchClusterSearchShardsRequestWire {
            cluster_manager_timeout: TimeValueWire::seconds(10),
            ..OpenSearchClusterSearchShardsRequestWire::default()
        };
        assert!(matches!(
            timeout.reject_unsupported_execution(),
            Err(TransportActionWireError::UnsupportedWireShape {
                shape: "cluster search shards cluster-manager timeout",
                ..
            })
        ));

        let local = OpenSearchClusterSearchShardsRequestWire {
            local: true,
            ..OpenSearchClusterSearchShardsRequestWire::default()
        };
        assert!(matches!(
            local.reject_unsupported_execution(),
            Err(TransportActionWireError::UnsupportedWireShape {
                shape: "cluster search shards local",
                ..
            })
        ));

        let index_filter = OpenSearchClusterSearchShardsRequestWire {
            indices: vec!["logs-*".to_string()],
            ..OpenSearchClusterSearchShardsRequestWire::default()
        };
        assert!(matches!(
            index_filter.reject_unsupported_execution(),
            Err(TransportActionWireError::UnsupportedWireShape {
                shape: "cluster search shards index filter",
                ..
            })
        ));

        let routing = OpenSearchClusterSearchShardsRequestWire {
            routing: Some("user-1".to_string()),
            ..OpenSearchClusterSearchShardsRequestWire::default()
        };
        assert!(matches!(
            routing.reject_unsupported_execution(),
            Err(TransportActionWireError::UnsupportedWireShape {
                shape: "cluster search shards routing",
                ..
            })
        ));

        let preference = OpenSearchClusterSearchShardsRequestWire {
            preference: Some("_primary".to_string()),
            ..OpenSearchClusterSearchShardsRequestWire::default()
        };
        assert!(matches!(
            preference.reject_unsupported_execution(),
            Err(TransportActionWireError::UnsupportedWireShape {
                shape: "cluster search shards preference",
                ..
            })
        ));

        let custom_options = OpenSearchClusterSearchShardsRequestWire {
            indices_options: OpenSearchIndicesOptionsWire {
                ignore_unavailable: false,
                ..OpenSearchIndicesOptionsWire::lenient_expand_open()
            },
            ..OpenSearchClusterSearchShardsRequestWire::default()
        };
        assert!(matches!(
            custom_options.reject_unsupported_execution(),
            Err(TransportActionWireError::UnsupportedWireShape {
                shape: "cluster search shards indices options",
                ..
            })
        ));

        let has_slice = OpenSearchClusterSearchShardsRequestWire {
            has_slice: true,
            ..OpenSearchClusterSearchShardsRequestWire::default()
        };
        assert!(matches!(
            has_slice.reject_unsupported_execution(),
            Err(TransportActionWireError::UnsupportedWireShape {
                shape: "cluster search shards slice",
                ..
            })
        ));
    }

#[test]
fn opensearch_cluster_search_shards_request_rejects_slice_payload_during_decode() {
        let request = OpenSearchClusterSearchShardsRequestWire {
            has_slice: true,
            ..OpenSearchClusterSearchShardsRequestWire::default()
        };
        let mut output = StreamOutput::new();
        request.write(&mut output);

        assert!(matches!(
            OpenSearchClusterSearchShardsRequestWire::read(output.freeze()),
            Err(TransportActionWireError::UnsupportedWireShape {
                shape: "cluster search shards slice payload",
                ..
            })
        ));
    }

#[test]
fn opensearch_cluster_search_shards_transport_messages_bind_rejected_action_frame() {
        let request = OpenSearchClusterSearchShardsRequestWire::default();
        let mut frame = build_opensearch_cluster_search_shards_request_message(
            39,
            opensearch_3_7_0_transport(),
            &request,
        )
        .unwrap();
        let DecodedFrame::Message(message) = decode_frame(&mut frame).unwrap().unwrap() else {
            panic!("expected cluster search shards request message");
        };
        assert_eq!(
            read_opensearch_cluster_search_shards_request_message(&message).unwrap(),
            request
        );
        assert!(matches!(
            read_opensearch_cluster_search_shards_request_message(&message)
                .unwrap()
                .reject_unsupported_execution(),
            Err(TransportActionWireError::UnsupportedWireShape {
                shape: "cluster search shards execution",
                ..
            })
        ));
    }

#[test]
fn opensearch_recovery_request_wire_round_trips_and_rejects_execution_boundary() {
        let request = OpenSearchRecoveryRequestWire::default();
        let mut output = StreamOutput::new();
        request.write(&mut output);

        let decoded = OpenSearchRecoveryRequestWire::read(output.freeze()).unwrap();
        assert_eq!(decoded, request);
        assert!(matches!(
            decoded.reject_unsupported_execution(),
            Err(TransportActionWireError::UnsupportedWireShape {
                shape: "recovery execution",
                ..
            })
        ));
    }

#[test]
fn opensearch_recovery_request_rejects_unsupported_shapes() {
        let index_filter = OpenSearchRecoveryRequestWire {
            indices: vec!["logs-*".to_string()],
            ..OpenSearchRecoveryRequestWire::default()
        };
        assert!(matches!(
            index_filter.reject_unsupported_execution(),
            Err(TransportActionWireError::UnsupportedWireShape {
                shape: "recovery index filter",
                ..
            })
        ));

        let custom_options = OpenSearchRecoveryRequestWire {
            indices_options: OpenSearchIndicesOptionsWire {
                ignore_unavailable: true,
                ..OpenSearchIndicesOptionsWire::expand_open_closed_allow_no_indices()
            },
            ..OpenSearchRecoveryRequestWire::default()
        };
        assert!(matches!(
            custom_options.reject_unsupported_execution(),
            Err(TransportActionWireError::UnsupportedWireShape {
                shape: "recovery indices options",
                ..
            })
        ));

        let detailed = OpenSearchRecoveryRequestWire {
            detailed: true,
            ..OpenSearchRecoveryRequestWire::default()
        };
        assert!(matches!(
            detailed.reject_unsupported_execution(),
            Err(TransportActionWireError::UnsupportedWireShape {
                shape: "recovery detailed",
                ..
            })
        ));

        let active_only = OpenSearchRecoveryRequestWire {
            active_only: true,
            ..OpenSearchRecoveryRequestWire::default()
        };
        assert!(matches!(
            active_only.reject_unsupported_execution(),
            Err(TransportActionWireError::UnsupportedWireShape {
                shape: "recovery active only",
                ..
            })
        ));
    }

#[test]
fn opensearch_recovery_transport_messages_bind_rejected_action_frame() {
        let request = OpenSearchRecoveryRequestWire::default();
        let mut frame =
            build_opensearch_recovery_request_message(40, opensearch_3_7_0_transport(), &request)
                .unwrap();
        let DecodedFrame::Message(message) = decode_frame(&mut frame).unwrap().unwrap() else {
            panic!("expected recovery request message");
        };
        assert_eq!(
            read_opensearch_recovery_request_message(&message).unwrap(),
            request
        );
        assert!(matches!(
            read_opensearch_recovery_request_message(&message)
                .unwrap()
                .reject_unsupported_execution(),
            Err(TransportActionWireError::UnsupportedWireShape {
                shape: "recovery execution",
                ..
            })
        ));
    }

#[test]
fn opensearch_indices_segments_request_wire_round_trips_and_rejects_execution_boundary() {
        let request = OpenSearchIndicesSegmentsRequestWire::default();
        let mut output = StreamOutput::new();
        request.write(&mut output);

        let decoded = OpenSearchIndicesSegmentsRequestWire::read(output.freeze()).unwrap();
        assert_eq!(decoded, request);
        assert!(matches!(
            decoded.reject_unsupported_execution(),
            Err(TransportActionWireError::UnsupportedWireShape {
                shape: "indices segments execution",
                ..
            })
        ));
    }

#[test]
fn opensearch_indices_segments_request_rejects_unsupported_shapes() {
        let index_filter = OpenSearchIndicesSegmentsRequestWire {
            indices: vec!["logs-*".to_string()],
            ..OpenSearchIndicesSegmentsRequestWire::default()
        };
        assert!(matches!(
            index_filter.reject_unsupported_execution(),
            Err(TransportActionWireError::UnsupportedWireShape {
                shape: "indices segments index filter",
                ..
            })
        ));

        let custom_options = OpenSearchIndicesSegmentsRequestWire {
            indices_options: OpenSearchIndicesOptionsWire {
                ignore_unavailable: true,
                ..OpenSearchIndicesOptionsWire::strict_expand_open_forbid_closed()
            },
            ..OpenSearchIndicesSegmentsRequestWire::default()
        };
        assert!(matches!(
            custom_options.reject_unsupported_execution(),
            Err(TransportActionWireError::UnsupportedWireShape {
                shape: "indices segments indices options",
                ..
            })
        ));

        let verbose = OpenSearchIndicesSegmentsRequestWire {
            verbose: true,
            ..OpenSearchIndicesSegmentsRequestWire::default()
        };
        assert!(matches!(
            verbose.reject_unsupported_execution(),
            Err(TransportActionWireError::UnsupportedWireShape {
                shape: "indices segments verbose",
                ..
            })
        ));
    }

#[test]
fn opensearch_indices_segments_transport_messages_bind_rejected_action_frame() {
        let request = OpenSearchIndicesSegmentsRequestWire::default();
        let mut frame = build_opensearch_indices_segments_request_message(
            41,
            opensearch_3_7_0_transport(),
            &request,
        )
        .unwrap();
        let DecodedFrame::Message(message) = decode_frame(&mut frame).unwrap().unwrap() else {
            panic!("expected indices segments request message");
        };
        assert_eq!(
            read_opensearch_indices_segments_request_message(&message).unwrap(),
            request
        );
        assert!(matches!(
            read_opensearch_indices_segments_request_message(&message)
                .unwrap()
                .reject_unsupported_execution(),
            Err(TransportActionWireError::UnsupportedWireShape {
                shape: "indices segments execution",
                ..
            })
        ));
    }

#[test]
fn opensearch_indices_shard_stores_request_wire_round_trips_and_rejects_execution_boundary() {
        let request = OpenSearchIndicesShardStoresRequestWire::default();
        let mut output = StreamOutput::new();
        request.write(&mut output);

        let decoded = OpenSearchIndicesShardStoresRequestWire::read(output.freeze()).unwrap();
        assert_eq!(decoded, request);
        assert!(matches!(
            decoded.reject_unsupported_execution(),
            Err(TransportActionWireError::UnsupportedWireShape {
                shape: "indices shard stores execution",
                ..
            })
        ));
    }

#[test]
fn opensearch_indices_shard_stores_request_rejects_unsupported_shapes() {
        let timeout = OpenSearchIndicesShardStoresRequestWire {
            cluster_manager_timeout: TimeValueWire::seconds(10),
            ..OpenSearchIndicesShardStoresRequestWire::default()
        };
        assert!(matches!(
            timeout.reject_unsupported_execution(),
            Err(TransportActionWireError::UnsupportedWireShape {
                shape: "indices shard stores cluster-manager timeout",
                ..
            })
        ));

        let local = OpenSearchIndicesShardStoresRequestWire {
            local: true,
            ..OpenSearchIndicesShardStoresRequestWire::default()
        };
        assert!(matches!(
            local.reject_unsupported_execution(),
            Err(TransportActionWireError::UnsupportedWireShape {
                shape: "indices shard stores local",
                ..
            })
        ));

        let index_filter = OpenSearchIndicesShardStoresRequestWire {
            indices: vec!["logs-*".to_string()],
            ..OpenSearchIndicesShardStoresRequestWire::default()
        };
        assert!(matches!(
            index_filter.reject_unsupported_execution(),
            Err(TransportActionWireError::UnsupportedWireShape {
                shape: "indices shard stores index filter",
                ..
            })
        ));

        let statuses = OpenSearchIndicesShardStoresRequestWire {
            statuses: vec![0, 1, 2],
            ..OpenSearchIndicesShardStoresRequestWire::default()
        };
        assert!(matches!(
            statuses.reject_unsupported_execution(),
            Err(TransportActionWireError::UnsupportedWireShape {
                shape: "indices shard stores statuses",
                ..
            })
        ));

        let custom_options = OpenSearchIndicesShardStoresRequestWire {
            indices_options: OpenSearchIndicesOptionsWire {
                ignore_unavailable: true,
                ..OpenSearchIndicesOptionsWire::expand_open_closed_allow_no_indices()
            },
            ..OpenSearchIndicesShardStoresRequestWire::default()
        };
        assert!(matches!(
            custom_options.reject_unsupported_execution(),
            Err(TransportActionWireError::UnsupportedWireShape {
                shape: "indices shard stores indices options",
                ..
            })
        ));
    }

#[test]
fn opensearch_indices_shard_stores_request_rejects_unknown_status_during_decode() {
        let request = OpenSearchIndicesShardStoresRequestWire {
            statuses: vec![3],
            ..OpenSearchIndicesShardStoresRequestWire::default()
        };
        let mut output = StreamOutput::new();
        request.write(&mut output);

        assert!(matches!(
            OpenSearchIndicesShardStoresRequestWire::read(output.freeze()),
            Err(TransportActionWireError::UnsupportedWireShape {
                shape: "indices shard stores status value",
                ..
            })
        ));
    }

#[test]
fn opensearch_indices_shard_stores_transport_messages_bind_rejected_action_frame() {
        let request = OpenSearchIndicesShardStoresRequestWire::default();
        let mut frame = build_opensearch_indices_shard_stores_request_message(
            42,
            opensearch_3_7_0_transport(),
            &request,
        )
        .unwrap();
        let DecodedFrame::Message(message) = decode_frame(&mut frame).unwrap().unwrap() else {
            panic!("expected indices shard stores request message");
        };
        assert_eq!(
            read_opensearch_indices_shard_stores_request_message(&message).unwrap(),
            request
        );
        assert!(matches!(
            read_opensearch_indices_shard_stores_request_message(&message)
                .unwrap()
                .reject_unsupported_execution(),
            Err(TransportActionWireError::UnsupportedWireShape {
                shape: "indices shard stores execution",
                ..
            })
        ));
    }

#[test]
fn opensearch_get_data_stream_request_wire_round_trips_and_rejects_execution_boundary() {
        let request = OpenSearchGetDataStreamRequestWire::default();
        let mut output = StreamOutput::new();
        request.write(&mut output);

        let decoded = OpenSearchGetDataStreamRequestWire::read(output.freeze()).unwrap();
        assert_eq!(decoded, request);
        assert!(matches!(
            decoded.reject_unsupported_execution(),
            Err(TransportActionWireError::UnsupportedWireShape {
                shape: "get data stream execution",
                ..
            })
        ));
    }

#[test]
fn opensearch_get_data_stream_request_rejects_unsupported_shapes() {
        let timeout = OpenSearchGetDataStreamRequestWire {
            cluster_manager_timeout: TimeValueWire::seconds(10),
            ..OpenSearchGetDataStreamRequestWire::default()
        };
        assert!(matches!(
            timeout.reject_unsupported_execution(),
            Err(TransportActionWireError::UnsupportedWireShape {
                shape: "get data stream cluster-manager timeout",
                ..
            })
        ));

        let local = OpenSearchGetDataStreamRequestWire {
            local: true,
            ..OpenSearchGetDataStreamRequestWire::default()
        };
        assert!(matches!(
            local.reject_unsupported_execution(),
            Err(TransportActionWireError::UnsupportedWireShape {
                shape: "get data stream local",
                ..
            })
        ));

        let name_filter = OpenSearchGetDataStreamRequestWire {
            names: Some(vec!["logs".to_string()]),
            ..OpenSearchGetDataStreamRequestWire::default()
        };
        assert!(matches!(
            name_filter.reject_unsupported_execution(),
            Err(TransportActionWireError::UnsupportedWireShape {
                shape: "get data stream name filter",
                ..
            })
        ));

        let null_names = OpenSearchGetDataStreamRequestWire {
            names: None,
            ..OpenSearchGetDataStreamRequestWire::default()
        };
        assert!(matches!(
            null_names.reject_unsupported_execution(),
            Err(TransportActionWireError::UnsupportedWireShape {
                shape: "get data stream null names",
                ..
            })
        ));
    }

#[test]
fn opensearch_get_data_stream_transport_messages_bind_rejected_action_frame() {
        let request = OpenSearchGetDataStreamRequestWire::default();
        let mut frame = build_opensearch_get_data_stream_request_message(
            43,
            opensearch_3_7_0_transport(),
            &request,
        )
        .unwrap();
        let DecodedFrame::Message(message) = decode_frame(&mut frame).unwrap().unwrap() else {
            panic!("expected get data stream request message");
        };
        assert_eq!(
            read_opensearch_get_data_stream_request_message(&message).unwrap(),
            request
        );
        assert!(matches!(
            read_opensearch_get_data_stream_request_message(&message)
                .unwrap()
                .reject_unsupported_execution(),
            Err(TransportActionWireError::UnsupportedWireShape {
                shape: "get data stream execution",
                ..
            })
        ));
    }

#[test]
fn list_tasks_request_wire_round_trips_default_empty_subset() {
        let request = ListTasksRequestWire::default();
        let mut output = StreamOutput::new();
        request.write(&mut output).unwrap();

        assert_eq!(
            ListTasksRequestWire::read(output.freeze()).unwrap(),
            request
        );
    }

#[test]
fn list_tasks_request_rejects_filters_detail_and_wait_shapes() {
        let by_task = ListTasksRequestWire {
            task_id: TaskIdWire {
                node_id: "node-a".to_string(),
                id: Some(7),
            },
            ..ListTasksRequestWire::default()
        };
        assert!(matches!(
            by_task.validate_supported_subset(),
            Err(TransportActionWireError::UnsupportedWireShape {
                shape: "list tasks task id filter",
                ..
            })
        ));

        let by_action = ListTasksRequestWire {
            actions: vec!["indices:data/read/search".to_string()],
            ..ListTasksRequestWire::default()
        };
        assert!(matches!(
            by_action.validate_supported_subset(),
            Err(TransportActionWireError::UnsupportedWireShape {
                shape: "list tasks action filter",
                ..
            })
        ));

        let detailed = ListTasksRequestWire {
            detailed: true,
            ..ListTasksRequestWire::default()
        };
        assert!(matches!(
            detailed.validate_supported_subset(),
            Err(TransportActionWireError::UnsupportedWireShape {
                shape: "list tasks detail flag",
                ..
            })
        ));

        let wait = ListTasksRequestWire {
            wait_for_completion: true,
            ..ListTasksRequestWire::default()
        };
        assert!(matches!(
            wait.validate_supported_subset(),
            Err(TransportActionWireError::UnsupportedWireShape {
                shape: "list tasks wait for completion",
                ..
            })
        ));
    }

#[test]
fn list_tasks_response_wire_round_trips_empty_task_set() {
        let response = ListTasksResponseWire::empty();
        let mut output = StreamOutput::new();
        response.write(&mut output).unwrap();

        assert_eq!(
            ListTasksResponseWire::read(output.freeze()).unwrap(),
            response
        );
    }

#[test]
fn list_tasks_response_rejects_non_empty_payloads_until_task_info_is_mapped() {
        let mut output = StreamOutput::new();
        output.write_vint(0);
        output.write_vint(0);
        output.write_vint(1);

        assert!(matches!(
            ListTasksResponseWire::read(output.freeze()),
            Err(TransportActionWireError::UnsupportedWireShape {
                shape: "list tasks task info",
                ..
            })
        ));
    }

#[test]
fn list_tasks_transport_messages_bind_action_frames() {
        let request = ListTasksRequestWire::default();
        let mut frame =
            build_list_tasks_request_message(18, opensearch_3_7_0_transport(), &request).unwrap();
        let DecodedFrame::Message(message) = decode_frame(&mut frame).unwrap().unwrap() else {
            panic!("expected list tasks request message");
        };
        assert_eq!(read_list_tasks_request_message(&message).unwrap(), request);

        let response = ListTasksResponseWire::empty();
        let mut frame =
            build_list_tasks_response_message(18, opensearch_3_7_0_transport(), &response).unwrap();
        let DecodedFrame::Message(message) = decode_frame(&mut frame).unwrap().unwrap() else {
            panic!("expected list tasks response message");
        };
        assert_eq!(message.request_id, 18);
        assert_eq!(
            read_list_tasks_response_message(&message).unwrap(),
            response
        );
    }

#[test]
fn get_task_request_wire_round_trips_and_rejects_execution_boundary() {
        let request = GetTaskRequestWire::new("node-a".to_string(), 7);
        let mut output = StreamOutput::new();
        request.write(&mut output);

        let decoded = GetTaskRequestWire::read(output.freeze()).unwrap();
        assert_eq!(decoded, request);
        assert!(matches!(
            decoded.reject_unsupported_execution(),
            Err(TransportActionWireError::UnsupportedWireShape {
                shape: "get task execution",
                ..
            })
        ));
    }

#[test]
fn get_task_request_rejects_missing_task_id_timeout_and_wait_shapes() {
        let missing = GetTaskRequestWire {
            parent_task_node: String::new(),
            parent_task_id: None,
            task_id: TaskIdWire::unset(),
            timeout: None,
            wait_for_completion: false,
        };
        assert!(matches!(
            missing.reject_unsupported_execution(),
            Err(TransportActionWireError::UnsupportedWireShape {
                shape: "get task missing task id",
                ..
            })
        ));

        let with_timeout = GetTaskRequestWire {
            timeout: Some(TimeValueWire::seconds(1)),
            ..GetTaskRequestWire::new("node-a".to_string(), 7)
        };
        assert!(matches!(
            with_timeout.reject_unsupported_execution(),
            Err(TransportActionWireError::UnsupportedWireShape {
                shape: "get task timeout",
                ..
            })
        ));

        let wait = GetTaskRequestWire {
            wait_for_completion: true,
            ..GetTaskRequestWire::new("node-a".to_string(), 7)
        };
        assert!(matches!(
            wait.reject_unsupported_execution(),
            Err(TransportActionWireError::UnsupportedWireShape {
                shape: "get task wait for completion",
                ..
            })
        ));
    }

#[test]
fn get_task_response_rejects_task_result_payloads_until_lifecycle_is_mapped() {
        let mut output = StreamOutput::new();
        output.write_bool(true);

        assert!(matches!(
            GetTaskResponseWire::read(output.freeze()),
            Err(TransportActionWireError::UnsupportedWireShape {
                shape: "get task result",
                ..
            })
        ));
    }

#[test]
fn cancel_tasks_request_wire_round_trips_default_no_active_task_subset() {
        let request = CancelTasksRequestWire::default();
        let mut output = StreamOutput::new();
        request.write(&mut output).unwrap();

        assert_eq!(
            CancelTasksRequestWire::read(output.freeze()).unwrap(),
            request
        );
    }

#[test]
fn cancel_tasks_request_rejects_filters_custom_reason_and_wait_shapes() {
        let by_task = CancelTasksRequestWire {
            task_id: TaskIdWire {
                node_id: "node-a".to_string(),
                id: Some(7),
            },
            ..CancelTasksRequestWire::default()
        };
        assert!(matches!(
            by_task.validate_supported_subset(),
            Err(TransportActionWireError::UnsupportedWireShape {
                shape: "cancel tasks task id filter",
                ..
            })
        ));

        let by_action = CancelTasksRequestWire {
            actions: vec!["indices:data/read/search".to_string()],
            ..CancelTasksRequestWire::default()
        };
        assert!(matches!(
            by_action.validate_supported_subset(),
            Err(TransportActionWireError::UnsupportedWireShape {
                shape: "cancel tasks action filter",
                ..
            })
        ));

        let custom_reason = CancelTasksRequestWire {
            reason: "maintenance".to_string(),
            ..CancelTasksRequestWire::default()
        };
        assert!(matches!(
            custom_reason.validate_supported_subset(),
            Err(TransportActionWireError::UnsupportedWireShape {
                shape: "cancel tasks reason",
                ..
            })
        ));

        let wait = CancelTasksRequestWire {
            wait_for_completion: true,
            ..CancelTasksRequestWire::default()
        };
        assert!(matches!(
            wait.validate_supported_subset(),
            Err(TransportActionWireError::UnsupportedWireShape {
                shape: "cancel tasks wait for completion",
                ..
            })
        ));
    }

#[test]
fn cancel_tasks_response_wire_round_trips_empty_cancelled_task_set() {
        let response = CancelTasksResponseWire::empty();
        let mut output = StreamOutput::new();
        response.write(&mut output).unwrap();

        assert_eq!(
            CancelTasksResponseWire::read(output.freeze()).unwrap(),
            response
        );
    }

#[test]
fn cancel_tasks_transport_messages_bind_action_frames() {
        let request = CancelTasksRequestWire::default();
        let mut frame =
            build_cancel_tasks_request_message(20, opensearch_3_7_0_transport(), &request).unwrap();
        let DecodedFrame::Message(message) = decode_frame(&mut frame).unwrap().unwrap() else {
            panic!("expected cancel tasks request message");
        };
        assert_eq!(
            read_cancel_tasks_request_message(&message).unwrap(),
            request
        );

        let response = CancelTasksResponseWire::empty();
        let mut frame =
            build_cancel_tasks_response_message(20, opensearch_3_7_0_transport(), &response).unwrap();
        let DecodedFrame::Message(message) = decode_frame(&mut frame).unwrap().unwrap() else {
            panic!("expected cancel tasks response message");
        };
        assert_eq!(message.request_id, 20);
        assert_eq!(
            read_cancel_tasks_response_message(&message).unwrap(),
            response
        );
    }
