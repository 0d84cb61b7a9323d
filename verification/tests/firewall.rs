use unifly::firewall::{map_fw_action, FirewallAction};
use unifly::firewall::{
    merge_groups_into_filter, merge_into_existing, parse_reorder_zone_pair, resolve_address_group_id,
    resolve_port_group_spec, CliError, CreatePolicyInput, EntityId, FirewallGroup, FirewallGroupType,
    ModelFirewallAction, PolicyFilterInput, PortSpec, TrafficFilterSpec, UpdatePolicyInput,
};

fn empty_filters() -> PolicyFilterInput {
    PolicyFilterInput {
        source_filter: None,
        destination_filter: None,
        src_network: None,
        src_ip: None,
        src_port: None,
        dst_network: None,
        dst_ip: None,
        dst_port: None,
        src_port_group: None,
        dst_port_group: None,
        src_address_group: None,
        dst_address_group: None,
    }
}

fn strings(items: &[&str]) -> Vec<String> {
    items.iter().map(|s| s.to_string()).collect()
}

#[test]
fn policy_filter_input_accepts_single_filter_family() {
    let input = PolicyFilterInput::from_cli(
        Some(vec!["lan".into()]),
        None,
        None,
        None,
        None,
        None,
        None,
        None,
        None,
        None,
    )
    .expect("network filter should resolve");
    let (source, _) = input.into_filters();

    assert!(matches!(source, Some(TrafficFilterSpec::Network { .. })));
}

#[test]
fn policy_filter_input_rejects_multiple_filter_families() {
    let err = PolicyFilterInput::from_cli(
        Some(vec!["lan".into()]),
        Some(vec!["10.0.0.1".into()]),
        None,
        None,
        None,
        None,
        None,
        None,
        None,
        None,
    );

    match err {
        Err(CliError::Validation { field, .. }) => assert_eq!(field, "src-filter"),
        Ok(_) => panic!("expected validation error, got success"),
    }
}

#[test]
fn policy_filter_input_combines_ip_and_port() {
    let input = PolicyFilterInput::from_cli(
        None,
        None,
        None,
        None,
        Some(vec!["10.0.40.10".into()]),
        Some(vec!["80".into()]),
        None,
        None,
        None,
        None,
    )
    .expect("ip + port should succeed");
    let (_, destination) = input.into_filters();

    match destination {
        Some(TrafficFilterSpec::IpAddress { addresses, ports, .. }) => {
            assert_eq!(addresses, vec!["10.0.40.10"]);
            let Some(PortSpec::Values { items, .. }) = ports else {
                panic!("expected PortSpec::Values, got {ports:?}")
            };
            assert_eq!(items, vec!["80"]);
        }
        other => panic!("expected IpAddress with ports, got {other:?}"),
    }
}

#[test]
fn create_policy_input_deserializes_shorthand_fields() {
    let mut filters = empty_filters();
    filters.dst_ip = Some(strings(&["10.0.40.10"]));
    filters.dst_port = Some(strings(&["80"]));
    let mut input = CreatePolicyInput {
        name: "Allow Awair".into(),
        action: ModelFirewallAction::Allow,
        source_zone_id: EntityId::new("d2864b8e-56fb-4945-b69f-6d424fa5b248"),
        destination_zone_id: EntityId::new("5888bc93-aaae-4242-ae2f-2050d76211fd"),
        enabled: true,
        logging_enabled: false,
        allow_return_traffic: Some(false),
        description: None,
        ip_version: None,
        connection_states: Some(strings(&["NEW"])),
        filters,
    };

    input
        .filters
        .resolve_inline_filters()
        .expect("ip + port should resolve");
    let request = input.into_request();
    match request.destination_filter {
        Some(TrafficFilterSpec::IpAddress { addresses, ports, .. }) => {
            assert_eq!(addresses, &["10.0.40.10"]);
            let Some(PortSpec::Values { items, .. }) = ports else {
                panic!("expected PortSpec::Values, got {ports:?}");
            };
            assert_eq!(items, &["80"]);
        }
        other => panic!("expected IpAddress filter with ports, got {other:?}"),
    }
    assert_eq!(request.name, "Allow Awair");
    assert_eq!(request.connection_states, Some(strings(&["NEW"])));
}

#[test]
fn policy_filter_input_rejects_shorthand_plus_full_filter() {
    let mut input = empty_filters();
    input.dst_ip = Some(strings(&["10.0.0.1"]));
    input.destination_filter = Some(TrafficFilterSpec::IpAddress {
        addresses: strings(&["10.0.0.2"]),
        match_opposite: false,
        ports: None,
    });

    let err = input
        .resolve_inline_filters()
        .expect_err("should reject mixed filter shapes");
    match err {
        CliError::Validation { reason, .. } => assert!(reason.contains("cannot combine")),
    }
}

#[test]
fn update_policy_input_deserializes_group_shorthand() {
    let mut filters = empty_filters();
    filters.dst_port_group = Some("HA".into());
    let input = UpdatePolicyInput {
        name: None,
        action: None,
        allow_return_traffic: None,
        enabled: None,
        description: None,
        ip_version: None,
        connection_states: None,
        logging_enabled: None,
        filters,
    };

    assert!(input.filters.has_group_refs());
}

#[test]
fn update_policy_input_deserializes_dst_port_filter() {
    let mut filters = empty_filters();
    filters.dst_port = Some(strings(&["80", "443"]));
    let mut input = UpdatePolicyInput {
        name: None,
        action: None,
        allow_return_traffic: None,
        enabled: None,
        description: None,
        ip_version: None,
        connection_states: None,
        logging_enabled: None,
        filters,
    };

    input
        .filters
        .resolve_inline_filters()
        .expect("port shorthand should resolve");
    let request = input.into_request();

    let Some(TrafficFilterSpec::Port {
        ports: PortSpec::Values { items, .. },
    }) = request.destination_filter
    else {
        panic!(
            "expected destination port filter, got {:?}",
            request.destination_filter
        );
    };
    assert_eq!(items, vec!["80", "443"]);
}

#[test]
fn merge_groups_into_existing_ip_address_adds_port_companion() {
    let existing = TrafficFilterSpec::IpAddress {
        addresses: vec!["10.0.0.5".into()],
        match_opposite: false,
        ports: None,
    };
    let port_spec = PortSpec::MatchingList {
        list_id: "web-ports-uuid".into(),
        match_opposite: false,
    };

    let merged = merge_into_existing("dst", existing, None, Some(port_spec))
        .expect("ip + port-group should merge");

    let TrafficFilterSpec::IpAddress {
        addresses,
        ports: Some(PortSpec::MatchingList { list_id, .. }),
        ..
    } = merged
    else {
        panic!("expected IpAddress with port matching list, got {merged:?}")
    };
    assert_eq!(addresses, vec!["10.0.0.5"]);
    assert_eq!(list_id, "web-ports-uuid");
}

#[test]
fn merge_groups_into_port_only_filter_upgrades_to_ip_matching_list() {
    let existing = TrafficFilterSpec::Port {
        ports: PortSpec::Values {
            items: vec!["443".into()],
            match_opposite: false,
        },
    };

    let merged = merge_into_existing("dst", existing, Some("servers-uuid".into()), None)
        .expect("address-group + existing port should upgrade to IpMatchingList");

    let TrafficFilterSpec::IpMatchingList {
        list_id,
        ports: Some(PortSpec::Values { items, .. }),
        ..
    } = merged
    else {
        panic!("expected IpMatchingList with port values, got {merged:?}")
    };
    assert_eq!(list_id, "servers-uuid");
    assert_eq!(items, vec!["443"]);
}

#[test]
fn merge_groups_rejects_two_address_scopes() {
    let existing = TrafficFilterSpec::IpAddress {
        addresses: vec!["10.0.0.5".into()],
        match_opposite: false,
        ports: None,
    };
    let err = merge_into_existing("dst", existing, Some("group-uuid".into()), None);
    assert!(matches!(err, Err(CliError::Validation { .. })));
}

#[test]
fn merge_groups_rejects_two_port_scopes() {
    let existing = TrafficFilterSpec::IpAddress {
        addresses: vec!["10.0.0.5".into()],
        match_opposite: false,
        ports: Some(PortSpec::Values {
            items: vec!["443".into()],
            match_opposite: false,
        }),
    };
    let port_spec = PortSpec::MatchingList {
        list_id: "web-ports-uuid".into(),
        match_opposite: false,
    };
    let err = merge_into_existing("dst", existing, None, Some(port_spec));
    assert!(matches!(err, Err(CliError::Validation { .. })));
}

#[test]
fn parse_reorder_zone_pair_requires_both_zones() {
    let err = parse_reorder_zone_pair(Some("src"), None)
        .expect_err("missing destination zone should fail");
    match err {
        CliError::Validation { field, .. } => assert_eq!(field, "zone-pair"),
    }
}

#[test]
fn parse_reorder_zone_pair_returns_entity_ids() {
    let zone_pair = parse_reorder_zone_pair(
        Some("550e8400-e29b-41d4-a716-446655440000"),
        Some("550e8400-e29b-41d4-a716-446655440001"),
    )
    .expect("zone pair should parse");
    assert_eq!(
        zone_pair,
        (
            EntityId::new("550e8400-e29b-41d4-a716-446655440000"),
            EntityId::new("550e8400-e29b-41d4-a716-446655440001"),
        )
    );
}

// ── Group references ──────────────────────────────────────────────────

fn groups() -> Vec<FirewallGroup> {
    vec![
        FirewallGroup {
            name: "web".into(),
            group_type: FirewallGroupType::PortGroup,
            external_id: Some("web-ports-uuid".into()),
        },
        FirewallGroup {
            name: "servers".into(),
            group_type: FirewallGroupType::AddressGroup,
            external_id: Some("servers-uuid".into()),
        },
        FirewallGroup {
            name: "unsynced".into(),
            group_type: FirewallGroupType::PortGroup,
            external_id: None,
        },
    ]
}

#[test]
fn port_group_resolves_to_matching_list() {
    let spec = resolve_port_group_spec("web", &groups()).expect("port group exists");
    assert_eq!(
        spec,
        PortSpec::MatchingList { list_id: "web-ports-uuid".into(), match_opposite: false }
    );
}

#[test]
fn port_group_of_the_wrong_kind_is_rejected() {
    assert!(matches!(
        resolve_port_group_spec("servers", &groups()),
        Err(CliError::Validation { .. })
    ));
}

#[test]
fn unknown_and_unsynced_groups_are_rejected() {
    assert!(resolve_port_group_spec("nope", &groups()).is_err());
    assert!(resolve_port_group_spec("unsynced", &groups()).is_err());
    assert!(resolve_address_group_id("web", &groups()).is_err());
}

#[test]
fn address_group_resolves_to_its_id() {
    assert_eq!(
        resolve_address_group_id("servers", &groups()).expect("address group exists"),
        "servers-uuid"
    );
}

#[test]
fn group_references_become_a_fresh_filter() {
    let merged = merge_groups_into_filter(
        "dst",
        None,
        Some("servers".into()),
        Some("web".into()),
        &groups(),
    )
    .expect("fresh filter");
    assert_eq!(
        merged,
        Some(TrafficFilterSpec::IpMatchingList {
            list_id: "servers-uuid".into(),
            match_opposite: false,
            ports: Some(PortSpec::MatchingList {
                list_id: "web-ports-uuid".into(),
                match_opposite: false
            }),
        })
    );
}

#[test]
fn resolving_group_references_clears_them() {
    let mut input = empty_filters();
    input.dst_port_group = Some("web".into());
    input.src_address_group = Some("servers".into());
    input.resolve_group_refs(&groups()).expect("groups resolve");
    assert!(!input.has_group_refs());
    let (source, destination) = input.into_filters();
    assert!(matches!(source, Some(TrafficFilterSpec::IpMatchingList { .. })));
    assert!(matches!(destination, Some(TrafficFilterSpec::Port { .. })));
}

#[test]
fn resolving_inline_filters_twice_changes_nothing() {
    let mut input = empty_filters();
    input.src_network = Some(strings(&["lan"]));
    input.resolve_inline_filters().expect("first pass");
    let once = input.source_filter.clone();
    input.resolve_inline_filters().expect("second pass");
    assert_eq!(input.source_filter, once);
}

#[test]
fn no_group_references_keep_the_filter() {
    let existing = Some(TrafficFilterSpec::Port {
        ports: PortSpec::Values { items: strings(&["22"]), match_opposite: true },
    });
    let kept = merge_groups_into_filter("src", existing.clone(), None, None, &groups()).expect("nothing to merge");
    assert_eq!(kept, existing);
}

#[test]
fn command_line_actions_map_to_model_actions() {
    assert_eq!(map_fw_action(&FirewallAction::Allow), ModelFirewallAction::Allow);
    assert_eq!(map_fw_action(&FirewallAction::Block), ModelFirewallAction::Block);
    assert_eq!(map_fw_action(&FirewallAction::Reject), ModelFirewallAction::Reject);
}
