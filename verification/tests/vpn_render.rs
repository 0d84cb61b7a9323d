use unifly::firewall::EntityId;
use unifly::vpn_render::{
    remote_access_vpn_server_row, site_to_site_vpn_row, vpn_client_connection_row, vpn_client_profile_row,
    vpn_tunnel_row, wireguard_peer_subnet_row, RemoteAccessVpnServer, SiteToSiteVpn, VpnClientConnection,
    VpnClientProfile,
};
use unifly::json::{JsonNumber, JsonValue};
use unifly::session::VpnSetting;
use unifly::vpn_render::{
    display_list, display_optional, ipsec_sa_identity, ipsec_sa_row, magic_site_to_site_vpn_config_row,
    openvpn_port_row, server_detail, sort_texts, text_lt, tunnel_detail, vpn_health_detail,
    vpn_server_row, vpn_setting_key_name, vpn_setting_patch_body, vpn_setting_row, wireguard_peer_row,
    Cell, DetailLine, HealthSummary, IpsecSa, MagicSiteToSiteVpnConfig, PaintRole, VpnServer,
    VpnSettingKey, VpnTunnel, WireGuardPeer,
};

fn text(cell: &Cell) -> (String, Option<PaintRole>) {
    match cell {
        Cell::Painted { text, role } => (text.clone(), Some(*role)),
        Cell::Flag(b) => (format!("flag:{b}"), None),
    }
}

fn line(l: &DetailLine) -> String {
    match l {
        DetailLine::Field { label, value } => format!("{label}{}", text(value).0),
        DetailLine::Plain(t) => t.clone(),
    }
}

fn server() -> VpnServer {
    VpnServer {
        id: EntityId::new("srv-1"),
        name: None,
        server_type: "WIREGUARD".into(),
        subnet: Some("10.8.0.0/24".into()),
        port: Some(51820),
        protocol: None,
        enabled: Some(true),
        wan_ip: None,
        connected_clients: Some(2),
        extra_json: None,
    }
}

#[test]
fn missing_values_show_a_dash() {
    assert_eq!(display_optional(None), "-");
    assert_eq!(display_optional(Some(42)), "42");
    assert_eq!(display_list(&Vec::new()), "-");
    assert_eq!(display_list(&vec!["a".into(), "b".into()]), "a, b");
}

#[test]
fn server_row_paints_each_column() {
    let row = vpn_server_row(&server());
    assert_eq!(text(&row.id), ("srv-1".into(), Some(PaintRole::Id)));
    assert_eq!(text(&row.name), ("-".into(), Some(PaintRole::Name)));
    assert_eq!(text(&row.port), ("51820".into(), Some(PaintRole::Number)));
    assert_eq!(text(&row.protocol), ("-".into(), Some(PaintRole::Muted)));
    assert_eq!(text(&row.enabled), ("flag:true".into(), None));
}

#[test]
fn server_detail_lists_fields_and_raw_record() {
    let mut s = server();
    let plain: Vec<String> = server_detail(&s).iter().map(line).collect();
    assert_eq!(plain.len(), 9);
    assert_eq!(plain[0], "ID:                srv-1");
    assert_eq!(plain[7], "Connected Clients: 2");
    s.extra_json = Some("{\n  \"mtu\": 1420\n}".into());
    let with_raw: Vec<String> = server_detail(&s).iter().map(line).collect();
    assert_eq!(with_raw.len(), 12);
    assert_eq!(with_raw[9], "");
    assert_eq!(with_raw[10], "Raw:");
}

#[test]
fn tunnel_detail_reports_psk_and_subnets() {
    let tunnel = VpnTunnel {
        id: EntityId::new("t1"),
        name: Some("branch".into()),
        tunnel_type: "IPSEC".into(),
        peer_address: Some("203.0.113.9".into()),
        ike_version: None,
        enabled: None,
        local_subnets: vec!["10.0.0.0/24".into(), "10.0.1.0/24".into()],
        remote_subnets: Vec::new(),
        has_psk: false,
        extra_json: None,
    };
    let lines = tunnel_detail(&tunnel);
    let plain: Vec<String> = lines.iter().map(line).collect();
    assert_eq!(plain[3], "Enabled:        -");
    assert_eq!(plain[5], "Local Subnets:  10.0.0.0/24, 10.0.1.0/24");
    assert_eq!(plain[6], "Remote Subnets: -");
    assert_eq!(plain[7], "Has PSK:        no");
    let DetailLine::Field { value, .. } = &lines[7] else { panic!("field") };
    assert_eq!(text(value).1, Some(PaintRole::Error));
}

#[test]
fn health_detail_shows_gateways_and_latency() {
    let health = HealthSummary {
        subsystem: "vpn".into(),
        status: "ok".into(),
        num_adopted: None,
        num_sta: Some(3),
        tx_bytes_r: Some(10),
        rx_bytes_r: None,
        latency: Some("12.5".into()),
        wan_ip: None,
        gateways: Some(vec!["gw1".into(), "gw2".into()]),
        extra_json: None,
    };
    let plain: Vec<String> = vpn_health_detail(&health).iter().map(line).collect();
    assert_eq!(plain[0], "Subsystem: vpn");
    assert_eq!(plain[2], "Devices:   -");
    assert_eq!(plain[3], "Clients:   3");
    assert_eq!(plain[6], "Latency:   12.5");
    assert_eq!(plain[8], "Gateways:  gw1, gw2");
}

#[test]
fn ipsec_rows_and_identity() {
    let sa = IpsecSa {
        name: None,
        remote_ip: None,
        local_ip: Some("192.0.2.1".into()),
        state: Some("up".into()),
        tx_bytes: Some(5),
        rx_bytes: None,
        uptime: Some(90),
        ike_version: None,
    };
    let row = ipsec_sa_row(&sa);
    assert_eq!(text(&row.uptime).0, "90s");
    assert_eq!(text(&row.state), ("up".into(), Some(PaintRole::State)));
    assert_eq!(ipsec_sa_identity(&sa), "192.0.2.1");
    let named = IpsecSa { name: Some("hq".into()), remote_ip: Some("r".into()), ..sa.clone() };
    assert_eq!(ipsec_sa_identity(&named), "hq");
    let anonymous = IpsecSa { local_ip: None, ..sa };
    assert_eq!(ipsec_sa_identity(&anonymous), "");
}

#[test]
fn magic_vpn_name_falls_back_to_both_sites() {
    let config = MagicSiteToSiteVpnConfig {
        id: EntityId::new("m1"),
        name: None,
        status: None,
        enabled: None,
        local_site_name: Some("HQ".into()),
        remote_site_name: Some("Lab".into()),
    };
    let row = magic_site_to_site_vpn_config_row(&config);
    assert_eq!(text(&row.name), ("HQ <-> Lab".into(), Some(PaintRole::Name)));
    assert_eq!(text(&row.status), ("-".into(), Some(PaintRole::Muted)));
    let lonely = MagicSiteToSiteVpnConfig { remote_site_name: None, ..config };
    assert_eq!(text(&magic_site_to_site_vpn_config_row(&lonely).name), ("-".into(), Some(PaintRole::Muted)));
}

#[test]
fn wireguard_rows_and_ports() {
    let peer = WireGuardPeer {
        id: EntityId::new("p1"),
        server_id: None,
        name: "laptop".into(),
        interface_ip: Some("10.8.0.2".into()),
        interface_ipv6: None,
        allowed_ips: Vec::new(),
        has_preshared_key: true,
    };
    let row = wireguard_peer_row(&peer);
    assert_eq!(text(&row.server_id), ("-".into(), Some(PaintRole::Muted)));
    assert_eq!(text(&row.interface_ip), ("10.8.0.2".into(), Some(PaintRole::Ip)));
    assert_eq!(text(&row.allowed_ips), ("-".into(), Some(PaintRole::Muted)));
    assert_eq!(text(&openvpn_port_row(1194).port), ("1194".into(), Some(PaintRole::Number)));
}

#[test]
fn setting_keys_and_patch_bodies() {
    assert_eq!(vpn_setting_key_name(VpnSettingKey::MagicSiteToSiteVpn), "magic_site_to_site_vpn");
    assert_eq!(vpn_setting_key_name(VpnSettingKey::PeerToPeer), "peer_to_peer");
    let body = JsonValue::Object(vec![
        ("fields".into(), JsonValue::Object(vec![("enabled".into(), JsonValue::Bool(true))])),
        ("other".into(), JsonValue::Null),
    ]);
    let JsonValue::Object(patch) = vpn_setting_patch_body(body) else { panic!("object") };
    assert_eq!(patch.len(), 1);
    assert_eq!(patch[0].0, "enabled");
    let flat = JsonValue::Object(vec![("enabled".into(), JsonValue::Bool(false))]);
    let JsonValue::Object(same) = vpn_setting_patch_body(flat) else { panic!("object") };
    assert_eq!(same[0].0, "enabled");
}

#[test]
fn setting_row_lists_other_fields_in_order() {
    let setting = VpnSetting {
        key: "openvpn".into(),
        enabled: Some(true),
        fields: vec![
            ("port".into(), JsonValue::Number(JsonNumber::PosInt(1194))),
            ("enabled".into(), JsonValue::Bool(true)),
            ("cipher".into(), JsonValue::Null),
            ("Zone".into(), JsonValue::Null),
        ],
    };
    let row = vpn_setting_row(&setting);
    assert_eq!(text(&row.fields), ("Zone, cipher, port".into(), Some(PaintRole::Muted)));
    assert_eq!(text(&row.key), ("openvpn".into(), Some(PaintRole::Name)));
}

#[test]
fn texts_sort_like_str() {
    let sorted = sort_texts(vec!["b".into(), "ab".into(), "a".into(), "B".into(), "é".into(), "a".into()]);
    let mut expected = vec!["b", "ab", "a", "B", "é", "a"];
    expected.sort();
    assert_eq!(sorted, expected);
    assert!(text_lt("a", "ab"));
    assert!(!text_lt("ab", "a"));
    assert!(!text_lt("a", "a"));
}

#[test]
fn remaining_rows_paint_their_columns() {
    let s2s = SiteToSiteVpn {
        id: EntityId::new("s"),
        name: "branch".into(),
        vpn_type: "IPSEC".into(),
        remote_host: None,
        remote_vpn_subnets: vec!["10.1.0.0/16".into()],
        enabled: false,
    };
    let row = site_to_site_vpn_row(&s2s);
    assert_eq!(text(&row.remote_host), ("-".into(), Some(PaintRole::Muted)));
    assert_eq!(text(&row.remote_vpn_subnets).0, "10.1.0.0/16");
    assert_eq!(text(&row.enabled), ("flag:false".into(), None));
    let ra = RemoteAccessVpnServer {
        id: EntityId::new("r"),
        name: "wg".into(),
        vpn_type: "WIREGUARD".into(),
        interface: Some("wg0".into()),
        local_wan_ip: None,
        local_port: Some(51820),
        enabled: true,
    };
    let row = remote_access_vpn_server_row(&ra);
    assert_eq!(text(&row.interface), ("wg0".into(), Some(PaintRole::Muted)));
    assert_eq!(text(&row.local_port), ("51820".into(), Some(PaintRole::Muted)));
    let profile = VpnClientProfile {
        id: EntityId::new("c"),
        name: "home".into(),
        vpn_type: "OPENVPN".into(),
        server_address: Some("vpn.example".into()),
        server_port: None,
        local_address: None,
        enabled: true,
    };
    let row = vpn_client_profile_row(&profile);
    assert_eq!(text(&row.server_address), ("vpn.example".into(), Some(PaintRole::Ip)));
    assert_eq!(text(&row.server_port), ("-".into(), Some(PaintRole::Muted)));
    let connection = VpnClientConnection {
        id: EntityId::new("k"),
        name: None,
        connection_type: Some("wireguard".into()),
        status: Some("CONNECTED".into()),
        local_address: None,
        remote_address: Some("198.51.100.2".into()),
    };
    let row = vpn_client_connection_row(&connection);
    assert_eq!(text(&row.name), ("-".into(), Some(PaintRole::Muted)));
    assert_eq!(text(&row.status), ("CONNECTED".into(), Some(PaintRole::State)));
    let tunnel = VpnTunnel {
        id: EntityId::new("t"),
        name: None,
        tunnel_type: "IPSEC".into(),
        peer_address: None,
        ike_version: Some("IKEv2".into()),
        enabled: Some(false),
        local_subnets: Vec::new(),
        remote_subnets: Vec::new(),
        has_psk: true,
        extra_json: None,
    };
    let row = vpn_tunnel_row(&tunnel);
    assert_eq!(text(&row.peer), ("-".into(), Some(PaintRole::Ip)));
    assert_eq!(text(&row.ike), ("IKEv2".into(), Some(PaintRole::Muted)));
    assert_eq!(text(&wireguard_peer_subnet_row("10.9.0.0/24").subnet), ("10.9.0.0/24".into(), Some(PaintRole::Ip)));
}
