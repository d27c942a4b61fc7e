use rack_setup_config::rss_config::{CurrentRssConfig, RECOVERY_SILO_NAME, RACK_SUBNET};
use rack_setup_config::network::validate_rack_network_config;
use rack_setup_config::types::{
    Baseboard, BootstrapAddressDiscovery, BootstrapPeers, CertificateIntake,
    CertificateUploadResponse, CurrentRssUserConfig, IpRange, Ipv4Range, PortFec, PortSpeed,
    PutRssUserConfigInsensitive, RackInventory, RackNetworkConfig, SpIdentifier, SpInfo, SpState,
    SpType, StartRssError, UpdateError, WirePortFec, WirePortSpeed,
};

fn board(serial: &str) -> Baseboard {
    Baseboard::new_gimlet(serial.to_string(), "gimlet".to_string(), 3)
}

fn sp(type_: SpType, slot: u32, serial: &str) -> SpInfo {
    SpInfo {
        id: SpIdentifier { type_, slot },
        state: Some(SpState {
            serial_number: serial.to_string(),
            model: "gimlet".to_string(),
            revision: 3,
        }),
    }
}

fn two_sled_inventory() -> RackInventory {
    RackInventory { sps: vec![sp(SpType::Sled, 0, "A"), sp(SpType::Sled, 1, "B")] }
}

fn peers_for_both() -> BootstrapPeers {
    BootstrapPeers { sleds: vec![(board("A"), 0xfdb0_0000_0000_0000_0000_0000_0000_000a), (board("B"), 0xfdb0_0000_0000_0000_0000_0000_0000_000b)] }
}

fn network() -> RackNetworkConfig {
    RackNetworkConfig {
        gateway_ip: 0x0a00_0001,
        infra_ip_first: 0x0a00_0002,
        infra_ip_last: 0x0a00_0009,
        uplink_port: "qsfp0".to_string(),
        uplink_port_speed: PortSpeed::Speed100G,
        uplink_port_fec: PortFec::Firecode,
        uplink_ip: 0x0a00_0005,
        uplink_vid: Some(100),
    }
}

fn put(slots: Vec<u32>) -> PutRssUserConfigInsensitive {
    PutRssUserConfigInsensitive {
        bootstrap_sleds: slots,
        ntp_servers: vec!["ntp.example.com".to_string()],
        dns_servers: vec!["1.1.1.1".to_string()],
        internal_services_ip_pool_ranges: vec![IpRange::V4(Ipv4Range { first: 0x0a01_0000, last: 0x0a01_00ff })],
        external_dns_zone_name: "example.com".to_string(),
        rack_network_config: network(),
    }
}

fn add_certificate(cfg: &mut CurrentRssConfig) {
    assert_eq!(cfg.push_cert(b"cert".to_vec()), CertificateIntake::WaitingOnKey);
    assert_eq!(cfg.push_key(b"key".to_vec()), CertificateIntake::ReadyToValidate);
    assert_eq!(cfg.maybe_promote_external_certificate(Ok(())), Ok(CertificateUploadResponse::CertKeyAccepted));
}

fn complete_config() -> CurrentRssConfig {
    let mut cfg = CurrentRssConfig::new();
    cfg.populate_available_bootstrap_sleds_from_inventory(&two_sled_inventory(), &peers_for_both());
    cfg.update(put(vec![0, 1]), None).unwrap();
    add_certificate(&mut cfg);
    cfg.set_recovery_user_password_hash("$argon2id$v=19$hash".to_string());
    cfg
}

#[test]
fn finalize_succeeds_when_complete() {
    assert!(complete_config().start_rss_request(&peers_for_both()).is_ok());
}

#[test]
fn finalize_requires_bootstrap_sleds() {
    let mut cfg = complete_config();
    cfg.bootstrap_sleds.clear();
    assert_eq!(cfg.start_rss_request(&peers_for_both()), Err(StartRssError::NoBootstrapSleds));
}

#[test]
fn finalize_requires_ntp_servers() {
    let mut cfg = complete_config();
    cfg.ntp_servers.clear();
    assert_eq!(cfg.start_rss_request(&peers_for_both()), Err(StartRssError::NoNtpServers));
}

#[test]
fn finalize_requires_dns_servers() {
    let mut cfg = complete_config();
    cfg.dns_servers.clear();
    assert_eq!(cfg.start_rss_request(&peers_for_both()), Err(StartRssError::NoDnsServers));
}

#[test]
fn finalize_requires_ip_pool_ranges() {
    let mut cfg = complete_config();
    cfg.internal_services_ip_pool_ranges.clear();
    assert_eq!(cfg.start_rss_request(&peers_for_both()), Err(StartRssError::NoInternalServicesIpPoolRanges));
}

#[test]
fn finalize_requires_dns_zone_name() {
    let mut cfg = complete_config();
    cfg.external_dns_zone_name.clear();
    assert_eq!(cfg.start_rss_request(&peers_for_both()), Err(StartRssError::NoExternalDnsZoneName));
}

#[test]
fn finalize_requires_certificate() {
    let mut cfg = complete_config();
    cfg.external_certificates.clear();
    assert_eq!(cfg.start_rss_request(&peers_for_both()), Err(StartRssError::NoCertificates));
}

#[test]
fn finalize_requires_password_hash() {
    let mut cfg = complete_config();
    cfg.recovery_silo_password_hash = None;
    assert_eq!(cfg.start_rss_request(&peers_for_both()), Err(StartRssError::RecoveryPasswordNotSet));
}

#[test]
fn finalize_requires_network_config() {
    let mut cfg = complete_config();
    cfg.rack_network_config = None;
    assert_eq!(cfg.start_rss_request(&peers_for_both()), Err(StartRssError::RackNetworkConfigNotSet));
}

#[test]
fn finalize_on_empty_draft_reports_sleds_first() {
    let cfg = CurrentRssConfig::new();
    assert_eq!(cfg.start_rss_request(&peers_for_both()), Err(StartRssError::NoBootstrapSleds));
}

#[test]
fn finalize_requires_current_address_for_each_sled() {
    let cfg = complete_config();
    let peers = BootstrapPeers { sleds: vec![(board("A"), 10)] };
    assert_eq!(
        cfg.start_rss_request(&peers),
        Err(StartRssError::BootstrapAddressUnknown { slot: 1, baseboard: board("B") })
    );
}

#[test]
fn update_rejects_unknown_slot_and_keeps_state() {
    let mut cfg = complete_config();
    let before = CurrentRssUserConfig::from_config(&cfg);
    let mut value = put(vec![0, 7]);
    value.ntp_servers = vec!["other".to_string()];
    assert_eq!(cfg.update(value, None), Err(UpdateError::UnknownSled { slot: 7 }));
    assert_eq!(CurrentRssUserConfig::from_config(&cfg), before);
    assert_eq!(cfg.external_certificates.len(), 1);
}

#[test]
fn update_rejects_missing_self() {
    let mut cfg = CurrentRssConfig::new();
    cfg.populate_available_bootstrap_sleds_from_inventory(&two_sled_inventory(), &peers_for_both());
    let ours = board("Z");
    assert_eq!(
        cfg.update(put(vec![0, 1]), Some(&ours)),
        Err(UpdateError::SelfMissingFromInventory { baseboard: board("Z") })
    );
    assert!(cfg.bootstrap_sleds.is_empty());
}

#[test]
fn update_rejects_excluding_self() {
    let mut cfg = CurrentRssConfig::new();
    cfg.populate_available_bootstrap_sleds_from_inventory(&two_sled_inventory(), &peers_for_both());
    let ours = board("B");
    assert_eq!(
        cfg.update(put(vec![0]), Some(&ours)),
        Err(UpdateError::CannotRemoveSelf { slot: 1, baseboard: board("B") })
    );
    assert!(cfg.ntp_servers.is_empty());
    assert_eq!(cfg.update(put(vec![0, 1]), Some(&ours)), Ok(()));
    assert_eq!(cfg.bootstrap_sleds.len(), 2);
}

#[test]
fn update_ignores_self_check_for_non_sled_board() {
    let mut cfg = CurrentRssConfig::new();
    cfg.populate_available_bootstrap_sleds_from_inventory(&two_sled_inventory(), &peers_for_both());
    let ours = Baseboard::Pc { identifier: "dev".to_string(), model: "pc".to_string() };
    assert_eq!(cfg.update(put(vec![1]), Some(&ours)), Ok(()));
    assert_eq!(cfg.bootstrap_sleds.len(), 1);
    assert_eq!(cfg.bootstrap_sleds[0].id.slot, 1);
}

#[test]
fn inventory_keeps_sleds_with_state_only() {
    let mut cfg = CurrentRssConfig::new();
    let inventory = RackInventory {
        sps: vec![
            sp(SpType::Switch, 0, "S"),
            sp(SpType::Sled, 3, "A"),
            SpInfo { id: SpIdentifier { type_: SpType::Sled, slot: 4 }, state: None },
            sp(SpType::Sled, 5, "C"),
            sp(SpType::Sled, 3, "D"),
        ],
    };
    cfg.populate_available_bootstrap_sleds_from_inventory(&inventory, &peers_for_both());
    assert_eq!(cfg.inventory.len(), 2);
    assert_eq!(cfg.inventory[0].id.slot, 3);
    assert_eq!(cfg.inventory[0].baseboard, board("A"));
    assert_eq!(cfg.inventory[0].bootstrap_ip, Some(0xfdb0_0000_0000_0000_0000_0000_0000_000a));
    assert_eq!(cfg.inventory[1].id.slot, 5);
    assert_eq!(cfg.inventory[1].bootstrap_ip, None);
}

#[test]
fn cert_only_waits_on_key() {
    let mut cfg = CurrentRssConfig::new();
    assert_eq!(cfg.push_cert(b"cert".to_vec()), CertificateIntake::WaitingOnKey);
    assert_eq!(cfg.maybe_promote_external_certificate(Ok(())), Ok(CertificateUploadResponse::WaitingOnKey));
    assert!(cfg.external_certificates.is_empty());
}

#[test]
fn key_only_waits_on_cert() {
    let mut cfg = CurrentRssConfig::new();
    assert_eq!(cfg.push_key(b"key".to_vec()), CertificateIntake::WaitingOnCert);
    assert_eq!(cfg.maybe_promote_external_certificate(Ok(())), Ok(CertificateUploadResponse::WaitingOnCert));
    assert!(cfg.external_certificates.is_empty());
}

#[test]
fn key_then_cert_is_accepted() {
    let mut cfg = CurrentRssConfig::new();
    assert_eq!(cfg.push_key(b"key".to_vec()), CertificateIntake::WaitingOnCert);
    assert_eq!(cfg.push_cert(b"cert".to_vec()), CertificateIntake::ReadyToValidate);
    assert_eq!(cfg.maybe_promote_external_certificate(Ok(())), Ok(CertificateUploadResponse::CertKeyAccepted));
    assert_eq!(cfg.external_certificates.len(), 1);
    assert_eq!(cfg.external_certificates[0].cert, b"cert".to_vec());
    assert_eq!(cfg.external_certificates[0].key, b"key".to_vec());
    assert!(cfg.partial_cert.is_none() && cfg.partial_key.is_none());
}

#[test]
fn mismatched_pair_is_refused_and_kept() {
    let mut cfg = CurrentRssConfig::new();
    add_certificate(&mut cfg);
    cfg.push_cert(b"other cert".to_vec());
    cfg.push_key(b"other key".to_vec());
    let refused = cfg.maybe_promote_external_certificate(Err("key does not match certificate".to_string()));
    assert_eq!(refused, Err("key does not match certificate".to_string()));
    assert_eq!(cfg.external_certificates.len(), 1);
    assert_eq!(cfg.partial_cert, Some(b"other cert".to_vec()));
    assert_eq!(cfg.partial_key, Some(b"other key".to_vec()));
}

#[test]
fn snapshot_defaults_to_inventory() {
    let mut cfg = CurrentRssConfig::new();
    cfg.populate_available_bootstrap_sleds_from_inventory(&two_sled_inventory(), &peers_for_both());
    let shown = CurrentRssUserConfig::from_config(&cfg);
    assert_eq!(shown.insensitive.bootstrap_sleds, cfg.inventory);
    assert_eq!(shown.sensitive.num_external_certificates, 0);
    assert!(!shown.sensitive.recovery_silo_password_set);

    cfg.update(put(vec![1]), None).unwrap();
    let shown = CurrentRssUserConfig::from_config(&cfg);
    assert_eq!(shown.insensitive.bootstrap_sleds.len(), 1);
    assert_eq!(shown.insensitive.bootstrap_sleds[0].id.slot, 1);
}

#[test]
fn snapshot_hides_secrets() {
    let cfg = complete_config();
    let shown = CurrentRssUserConfig::from_config(&cfg);
    assert_eq!(shown.sensitive.num_external_certificates, 1);
    assert!(shown.sensitive.recovery_silo_password_set);
    assert_eq!(shown.insensitive.ntp_servers, vec!["ntp.example.com".to_string()]);
    assert_eq!(shown.insensitive.rack_network_config, Some(network()));
}

#[test]
fn finalize_twice_gives_equal_requests() {
    let cfg = complete_config();
    let first = cfg.start_rss_request(&peers_for_both()).unwrap();
    let second = cfg.start_rss_request(&peers_for_both()).unwrap();
    assert_eq!(first, second);
}

#[test]
fn example_rack_setup_scenario() {
    let mut cfg = CurrentRssConfig::new();
    cfg.populate_available_bootstrap_sleds_from_inventory(&two_sled_inventory(), &peers_for_both());
    assert_eq!(cfg.update(put(vec![0, 1]), None), Ok(()));
    assert_eq!(cfg.push_cert(b"cert".to_vec()), CertificateIntake::WaitingOnKey);
    assert_eq!(cfg.maybe_promote_external_certificate(Ok(())), Ok(CertificateUploadResponse::WaitingOnKey));
    assert_eq!(cfg.push_key(b"key".to_vec()), CertificateIntake::ReadyToValidate);
    assert_eq!(cfg.maybe_promote_external_certificate(Ok(())), Ok(CertificateUploadResponse::CertKeyAccepted));
    cfg.set_recovery_user_password_hash("$argon2id$v=19$hash".to_string());

    let request = cfg.start_rss_request(&peers_for_both()).unwrap();
    assert_eq!(request.rack_subnet, RACK_SUBNET);
    assert_eq!(RACK_SUBNET, 0xfd00_1122_3344_0100_0000_0000_0000_0000);
    assert_eq!(
        request.bootstrap_discovery,
        BootstrapAddressDiscovery::OnlyThese(vec![
            0xfdb0_0000_0000_0000_0000_0000_0000_000a,
            0xfdb0_0000_0000_0000_0000_0000_0000_000b,
        ])
    );
    assert_eq!(request.rack_secret_threshold, 1);
    assert_eq!(request.external_certificates.len(), 1);
    assert_eq!(request.recovery_silo.silo_name, "recovery");
    assert_eq!(RECOVERY_SILO_NAME, "recovery");
    assert_eq!(request.recovery_silo.user_name, "recovery");
    assert_eq!(request.recovery_silo.user_password_hash, "$argon2id$v=19$hash");
    assert_eq!(request.external_dns_zone_name, "example.com");
    let wire = request.rack_network_config.unwrap();
    assert_eq!(wire.uplink_port_speed, WirePortSpeed::Speed100G);
    assert_eq!(wire.uplink_port_fec, WirePortFec::Firecode);
    assert_eq!(wire.uplink_vid, Some(100));
}

#[test]
fn network_config_maps_each_setting() {
    let mut config = network();
    config.uplink_port_speed = PortSpeed::Speed25G;
    config.uplink_port_fec = PortFec::Off;
    let wire = validate_rack_network_config(&config);
    assert_eq!(wire.uplink_port_speed, WirePortSpeed::Speed25G);
    assert_eq!(wire.uplink_port_fec, WirePortFec::Off);
    assert_eq!(wire.gateway_ip, 0x0a00_0001);
    assert_eq!(wire.uplink_port, "qsfp0");
    config.uplink_port_fec = PortFec::Rs;
    config.uplink_port_speed = PortSpeed::Speed400G;
    let wire = validate_rack_network_config(&config);
    assert_eq!(wire.uplink_port_speed, WirePortSpeed::Speed400G);
    assert_eq!(wire.uplink_port_fec, WirePortFec::Rs);
}
