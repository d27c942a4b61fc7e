use vstd::prelude::*;

verus! {

/// The identity of a piece of rack hardware.
#[derive(Debug, PartialEq, Eq)]
pub enum Baseboard {
    Gimlet { identifier: String, model: String, revision: i64 },
    Unknown,
    Pc { identifier: String, model: String },
}

impl Clone for Baseboard {
    fn clone(&self) -> (r: Self)
        ensures
            r == *self,
    {
        match self {
            Baseboard::Gimlet { identifier, model, revision } => Baseboard::Gimlet {
                identifier: identifier.clone(),
                model: model.clone(),
                revision: *revision,
            },
            Baseboard::Unknown => Baseboard::Unknown,
            Baseboard::Pc { identifier, model } => Baseboard::Pc {
                identifier: identifier.clone(),
                model: model.clone(),
            },
        }
    }
}

/// Two baseboards name the same hardware: same variant, same text, same revision.
pub open spec fn same_board(a: Baseboard, b: Baseboard) -> bool {
    match (a, b) {
        (
            Baseboard::Gimlet { identifier: i1, model: m1, revision: r1 },
            Baseboard::Gimlet { identifier: i2, model: m2, revision: r2 },
        ) => i1@ == i2@ && m1@ == m2@ && r1 == r2,
        (Baseboard::Unknown, Baseboard::Unknown) => true,
        (
            Baseboard::Pc { identifier: i1, model: m1 },
            Baseboard::Pc { identifier: i2, model: m2 },
        ) => i1@ == i2@ && m1@ == m2@,
        _ => false,
    }
}

impl Baseboard {
    /// The baseboard of a compute sled.
    pub fn new_gimlet(identifier: String, model: String, revision: i64) -> (r: Baseboard)
        ensures
            r == (Baseboard::Gimlet { identifier, model, revision }),
    {
        Baseboard::Gimlet { identifier, model, revision }
    }

    /// Whether `self` and `other` name the same hardware.
    pub fn same_as(&self, other: &Baseboard) -> (r: bool)
        ensures
            r == same_board(*self, *other),
    {
        match (self, other) {
            (
                Baseboard::Gimlet { identifier: i1, model: m1, revision: r1 },
                Baseboard::Gimlet { identifier: i2, model: m2, revision: r2 },
            ) => *i1 == *i2 && *m1 == *m2 && *r1 == *r2,
            (Baseboard::Unknown, Baseboard::Unknown) => true,
            (Baseboard::Pc { identifier: i1, model: m1 }, Baseboard::Pc { identifier: i2, model: m2 }) => {
                *i1 == *i2 && *m1 == *m2
            },
            _ => false,
        }
    }
}

/// The kind of service processor a rack member carries.
#[derive(Debug, Clone, Copy, PartialEq, Eq, Structural)]
pub enum SpType {
    Sled,
    Power,
    Switch,
}

/// Where a service processor sits in the rack.
#[derive(Debug, Clone, Copy, PartialEq, Eq, Structural)]
pub struct SpIdentifier {
    pub type_: SpType,
    pub slot: u32,
}

/// What a service processor reports about its board.
#[derive(Debug, PartialEq, Eq)]
pub struct SpState {
    pub serial_number: String,
    pub model: String,
    pub revision: u32,
}

/// One rack member as discovered by the management network.
#[derive(Debug, PartialEq, Eq)]
pub struct SpInfo {
    pub id: SpIdentifier,
    pub state: Option<SpState>,
}

/// The rack members currently known to the management network.
#[derive(Debug, PartialEq, Eq)]
pub struct RackInventory {
    pub sps: Vec<SpInfo>,
}

/// Bootstrap-network addresses currently known, by baseboard.
#[derive(Debug, PartialEq, Eq)]
pub struct BootstrapPeers {
    pub sleds: Vec<(Baseboard, u128)>,
}

/// A sled that may take part in rack setup.
#[derive(Debug, PartialEq, Eq)]
pub struct BootstrapSledDescription {
    pub id: SpIdentifier,
    pub baseboard: Baseboard,
    pub bootstrap_ip: Option<u128>,
}

impl Clone for BootstrapSledDescription {
    fn clone(&self) -> (r: Self)
        ensures
            r == *self,
    {
        BootstrapSledDescription {
            id: self.id,
            baseboard: self.baseboard.clone(),
            bootstrap_ip: self.bootstrap_ip,
        }
    }
}

/// An inclusive range of IPv4 addresses.
#[derive(Debug, Clone, Copy, PartialEq, Eq, Structural)]
pub struct Ipv4Range {
    pub first: u32,
    pub last: u32,
}

/// An inclusive range of IPv6 addresses.
#[derive(Debug, Clone, Copy, PartialEq, Eq, Structural)]
pub struct Ipv6Range {
    pub first: u128,
    pub last: u128,
}

/// A range of addresses for internal services.
#[derive(Debug, Clone, Copy, PartialEq, Eq, Structural)]
pub enum IpRange {
    V4(Ipv4Range),
    V6(Ipv6Range),
}

/// Speed of the uplink port, as the operator gives it.
#[derive(Debug, Clone, Copy, PartialEq, Eq, Structural)]
pub enum PortSpeed {
    Speed0G,
    Speed1G,
    Speed10G,
    Speed25G,
    Speed40G,
    Speed50G,
    Speed100G,
    Speed200G,
    Speed400G,
}

/// Forward error correction of the uplink port, as the operator gives it.
#[derive(Debug, Clone, Copy, PartialEq, Eq, Structural)]
pub enum PortFec {
    Firecode,
    Off,
    Rs,
}

/// Rack uplink settings, as the operator gives them.
#[derive(Debug, PartialEq, Eq)]
pub struct RackNetworkConfig {
    pub gateway_ip: u32,
    pub infra_ip_first: u32,
    pub infra_ip_last: u32,
    pub uplink_port: String,
    pub uplink_port_speed: PortSpeed,
    pub uplink_port_fec: PortFec,
    pub uplink_ip: u32,
    pub uplink_vid: Option<u16>,
}

impl Clone for RackNetworkConfig {
    fn clone(&self) -> (r: Self)
        ensures
            r == *self,
    {
        RackNetworkConfig {
            gateway_ip: self.gateway_ip,
            infra_ip_first: self.infra_ip_first,
            infra_ip_last: self.infra_ip_last,
            uplink_port: self.uplink_port.clone(),
            uplink_port_speed: self.uplink_port_speed,
            uplink_port_fec: self.uplink_port_fec,
            uplink_ip: self.uplink_ip,
            uplink_vid: self.uplink_vid,
        }
    }
}

/// Speed of the uplink port, as the provisioning service takes it.
#[derive(Debug, Clone, Copy, PartialEq, Eq, Structural)]
pub enum WirePortSpeed {
    Speed0G,
    Speed1G,
    Speed10G,
    Speed25G,
    Speed40G,
    Speed50G,
    Speed100G,
    Speed200G,
    Speed400G,
}

/// Forward error correction, as the provisioning service takes it.
#[derive(Debug, Clone, Copy, PartialEq, Eq, Structural)]
pub enum WirePortFec {
    Firecode,
    Off,
    Rs,
}

/// Rack uplink settings, as the provisioning service takes them.
#[derive(Debug, PartialEq, Eq)]
pub struct WireRackNetworkConfig {
    pub gateway_ip: u32,
    pub infra_ip_first: u32,
    pub infra_ip_last: u32,
    pub uplink_port: String,
    pub uplink_port_speed: WirePortSpeed,
    pub uplink_port_fec: WirePortFec,
    pub uplink_ip: u32,
    pub uplink_vid: Option<u16>,
}

/// A TLS certificate chain and its private key, both as uploaded.
#[derive(Debug, PartialEq, Eq)]
pub struct Certificate {
    pub cert: Vec<u8>,
    pub key: Vec<u8>,
}

impl View for Certificate {
    type V = (Seq<u8>, Seq<u8>);

    open spec fn view(&self) -> (Seq<u8>, Seq<u8>) {
        (self.cert@, self.key@)
    }
}

impl Clone for Certificate {
    fn clone(&self) -> (r: Self)
        ensures
            r@ == self@,
    {
        Certificate { cert: self.cert.clone(), key: self.key.clone() }
    }
}

/// The contents of a sequence of certificates.
pub open spec fn certs_view(s: Seq<Certificate>) -> Seq<(Seq<u8>, Seq<u8>)> {
    s.map_values(|c: Certificate| c@)
}

/// How the provisioning service finds the sleds of the new rack.
#[derive(Debug, PartialEq, Eq)]
pub enum BootstrapAddressDiscovery {
    OnlyOurs,
    OnlyThese(Vec<u128>),
}

/// The built-in tenant used for first and emergency access.
#[derive(Debug, PartialEq, Eq)]
pub struct RecoverySiloConfig {
    pub silo_name: String,
    pub user_name: String,
    pub user_password_hash: String,
}

/// A complete, validated request to set up the rack.
#[derive(Debug, PartialEq, Eq)]
pub struct RackInitializeRequest {
    pub rack_subnet: u128,
    pub bootstrap_discovery: BootstrapAddressDiscovery,
    pub rack_secret_threshold: usize,
    pub ntp_servers: Vec<String>,
    pub dns_servers: Vec<String>,
    pub internal_services_ip_pool_ranges: Vec<IpRange>,
    pub external_dns_zone_name: String,
    pub external_certificates: Vec<Certificate>,
    pub recovery_silo: RecoverySiloConfig,
    pub rack_network_config: Option<WireRackNetworkConfig>,
}

/// The user-editable fields, replaced as a whole by each update.
#[derive(Debug, PartialEq, Eq)]
pub struct PutRssUserConfigInsensitive {
    pub bootstrap_sleds: Vec<u32>,
    pub ntp_servers: Vec<String>,
    pub dns_servers: Vec<String>,
    pub internal_services_ip_pool_ranges: Vec<IpRange>,
    pub external_dns_zone_name: String,
    pub rack_network_config: RackNetworkConfig,
}

/// What may be shown of the secret part of the configuration.
#[derive(Debug, Clone, Copy, PartialEq, Eq, Structural)]
pub struct CurrentRssUserConfigSensitive {
    pub num_external_certificates: usize,
    pub recovery_silo_password_set: bool,
}

/// The user-editable part of the configuration, for display.
#[derive(Debug, PartialEq, Eq)]
pub struct CurrentRssUserConfigInsensitive {
    pub bootstrap_sleds: Vec<BootstrapSledDescription>,
    pub ntp_servers: Vec<String>,
    pub dns_servers: Vec<String>,
    pub internal_services_ip_pool_ranges: Vec<IpRange>,
    pub external_dns_zone_name: String,
    pub rack_network_config: Option<RackNetworkConfig>,
}

/// A display-safe snapshot of the configuration.
#[derive(Debug, PartialEq, Eq)]
pub struct CurrentRssUserConfig {
    pub sensitive: CurrentRssUserConfigSensitive,
    pub insensitive: CurrentRssUserConfigInsensitive,
}

/// The outcome of an accepted certificate or key upload.
#[derive(Debug, Clone, Copy, PartialEq, Eq, Structural)]
pub enum CertificateUploadResponse {
    WaitingOnCert,
    WaitingOnKey,
    CertKeyAccepted,
}

/// Where two-phase certificate intake stands after an upload.
#[derive(Debug, Clone, Copy, PartialEq, Eq, Structural)]
pub enum CertificateIntake {
    WaitingOnCert,
    WaitingOnKey,
    /// Both halves are present; they must be validated as a pair.
    ReadyToValidate,
}

/// Why an update was refused.
#[derive(Debug, PartialEq, Eq)]
pub enum UpdateError {
    /// The sled running this service is not in the inventory.
    SelfMissingFromInventory { baseboard: Baseboard },
    /// The selection leaves out the sled running this service.
    CannotRemoveSelf { slot: u32, baseboard: Baseboard },
    /// The selection names a slot that the inventory does not hold.
    UnknownSled { slot: u32 },
}

/// Why a setup request could not be assembled.
#[derive(Debug, PartialEq, Eq)]
pub enum StartRssError {
    NoBootstrapSleds,
    NoNtpServers,
    NoDnsServers,
    NoInternalServicesIpPoolRanges,
    NoExternalDnsZoneName,
    NoCertificates,
    RecoveryPasswordNotSet,
    RackNetworkConfigNotSet,
    /// A selected sled has no bootstrap address known at this time.
    BootstrapAddressUnknown { slot: u32, baseboard: Baseboard },
}

} // verus!
