use vstd::prelude::*;
use crate::network::{validate_rack_network_config, wire_matches};
use crate::types::{
    same_board, Baseboard, BootstrapAddressDiscovery, BootstrapPeers, BootstrapSledDescription,
    Certificate, CertificateIntake, CertificateUploadResponse, CurrentRssUserConfig,
    CurrentRssUserConfigInsensitive, CurrentRssUserConfigSensitive, IpRange,
    PutRssUserConfigInsensitive, RackInitializeRequest, RackInventory, RackNetworkConfig,
    RecoverySiloConfig, SpInfo, SpState, SpType, StartRssError, UpdateError, certs_view,
};

verus! {

/// The subnet given to the rack (fd00:1122:3344:0100::/56); a single rack is assumed.
pub const RACK_SUBNET: u128 = 0xfd00_1122_3344_0100_0000_0000_0000_0000;

/// Name of the built-in recovery silo.
pub const RECOVERY_SILO_NAME: &'static str = "recovery";

/// Name of the user created in the recovery silo.
pub const RECOVERY_SILO_USERNAME: &'static str = "recovery";

/// The draft rack-setup configuration, filled in piecemeal by the operator.
pub struct CurrentRssConfig {
    /// Sleds currently known to be in the rack, at most one per slot.
    pub inventory: Vec<BootstrapSledDescription>,
    /// Sleds the operator chose to take part; empty until chosen.
    pub bootstrap_sleds: Vec<BootstrapSledDescription>,
    pub ntp_servers: Vec<String>,
    pub dns_servers: Vec<String>,
    pub internal_services_ip_pool_ranges: Vec<IpRange>,
    pub external_dns_zone_name: String,
    /// Validated certificate/key pairs, in the order they were accepted.
    pub external_certificates: Vec<Certificate>,
    pub recovery_silo_password_hash: Option<String>,
    pub rack_network_config: Option<RackNetworkConfig>,
    /// The certificate half of a pair still being uploaded.
    pub partial_cert: Option<Vec<u8>>,
    /// The key half of a pair still being uploaded.
    pub partial_key: Option<Vec<u8>>,
}

// ---- inventory ----

/// The address `peers` gives for `b`: that of the first entry naming the same board.
pub open spec fn peer_addr(peers: Seq<(Baseboard, u128)>, b: Baseboard) -> Option<u128>
    decreases peers.len(),
{
    if peers.len() == 0 {
        None
    } else if same_board(peers[0].0, b) {
        Some(peers[0].1)
    } else {
        peer_addr(peers.drop_first(), b)
    }
}

/// Some entry of `inv` sits in `slot`.
pub open spec fn has_slot(inv: Seq<BootstrapSledDescription>, slot: u32) -> bool {
    exists|i: int| 0 <= i < inv.len() && inv[i].id.slot == slot
}

/// The baseboard that a sled's service processor describes.
pub open spec fn board_of(st: SpState) -> Baseboard {
    Baseboard::Gimlet { identifier: st.serial_number, model: st.model, revision: st.revision as i64 }
}

/// The inventory drawn from `sps`: each sled that reports its state, the first one
/// per slot, with the bootstrap address that `peers` gives for its board.
pub open spec fn inventory_from(sps: Seq<SpInfo>, peers: Seq<(Baseboard, u128)>) -> Seq<
    BootstrapSledDescription,
>
    decreases sps.len(),
{
    if sps.len() == 0 {
        seq![]
    } else {
        let prev = inventory_from(sps.drop_last(), peers);
        let sp = sps.last();
        match sp.state {
            Some(st) => if sp.id.type_ == SpType::Sled && !has_slot(prev, sp.id.slot) {
                prev.push(
                    BootstrapSledDescription {
                        id: sp.id,
                        baseboard: board_of(st),
                        bootstrap_ip: peer_addr(peers, board_of(st)),
                    },
                )
            } else {
                prev
            },
            None => prev,
        }
    }
}

fn lookup_peer(peers: &Vec<(Baseboard, u128)>, b: &Baseboard) -> (r: Option<u128>)
    ensures
        r == peer_addr(peers@, *b),
{
    let mut i: usize = 0;
    assert(peers@.subrange(0, peers@.len() as int) =~= peers@);
    while i < peers.len()
        invariant
            0 <= i <= peers.len(),
            peer_addr(peers@, *b) == peer_addr(peers@.subrange(i as int, peers@.len() as int), *b),
        decreases peers.len() - i,
    {
        assert(peers@.subrange(i as int, peers@.len() as int).drop_first() =~= peers@.subrange(
            i + 1,
            peers@.len() as int,
        ));
        if peers[i].0.same_as(b) {
            return Some(peers[i].1);
        }
        i = i + 1;
    }
    None
}

fn inventory_has_slot(inv: &Vec<BootstrapSledDescription>, slot: u32) -> (r: bool)
    ensures
        r == has_slot(inv@, slot),
{
    let mut i: usize = 0;
    while i < inv.len()
        invariant
            0 <= i <= inv.len(),
            forall|j: int| 0 <= j < i ==> inv@[j].id.slot != slot,
        decreases inv.len() - i,
    {
        if inv[i].id.slot == slot {
            return true;
        }
        i = i + 1;
    }
    false
}

// ---- update ----

/// The slot of the first inventory entry that names board `b`.
pub open spec fn self_slot(inv: Seq<BootstrapSledDescription>, b: Baseboard) -> Option<u32>
    decreases inv.len(),
{
    if inv.len() == 0 {
        None
    } else if same_board(inv[0].baseboard, b) {
        Some(inv[0].id.slot)
    } else {
        self_slot(inv.drop_first(), b)
    }
}

/// The first slot of `cand` that no inventory entry sits in.
pub open spec fn first_unknown(inv: Seq<BootstrapSledDescription>, cand: Seq<u32>) -> Option<u32>
    decreases cand.len(),
{
    if cand.len() == 0 {
        None
    } else if !has_slot(inv, cand[0]) {
        Some(cand[0])
    } else {
        first_unknown(inv, cand.drop_first())
    }
}

/// The inventory entries whose slot `cand` lists, in inventory order.
pub open spec fn select(inv: Seq<BootstrapSledDescription>, cand: Seq<u32>) -> Seq<
    BootstrapSledDescription,
>
    decreases inv.len(),
{
    if inv.len() == 0 {
        seq![]
    } else if cand.contains(inv.last().id.slot) {
        select(inv.drop_last(), cand).push(inv.last())
    } else {
        select(inv.drop_last(), cand)
    }
}

/// Why an update with selection `cand`, made from the node with board `ours`, is
/// refused, checked in order: the node's own sled (when it is a real sled) must be in
/// the inventory and in the selection; every selected slot must be in the inventory.
pub open spec fn update_error(
    inv: Seq<BootstrapSledDescription>,
    cand: Seq<u32>,
    ours: Option<&Baseboard>,
) -> Option<UpdateError> {
    match ours {
        Some(b) => if b is Gimlet {
            match self_slot(inv, *b) {
                None => Some(UpdateError::SelfMissingFromInventory { baseboard: *b }),
                Some(s) => if !cand.contains(s) {
                    Some(UpdateError::CannotRemoveSelf { slot: s, baseboard: *b })
                } else {
                    unknown_error(inv, cand)
                },
            }
        } else {
            unknown_error(inv, cand)
        },
        None => unknown_error(inv, cand),
    }
}

/// The error for the first selected slot that the inventory lacks, if any.
pub open spec fn unknown_error(inv: Seq<BootstrapSledDescription>, cand: Seq<u32>) -> Option<
    UpdateError,
> {
    match first_unknown(inv, cand) {
        Some(s) => Some(UpdateError::UnknownSled { slot: s }),
        None => None,
    }
}

proof fn lemma_first_unknown_found(inv: Seq<BootstrapSledDescription>, cand: Seq<u32>, j: int)
    requires
        0 <= j < cand.len(),
        !has_slot(inv, cand[j]),
    ensures
        first_unknown(inv, cand) is Some,
    decreases cand.len(),
{
    if has_slot(inv, cand[0]) {
        lemma_first_unknown_found(inv, cand.drop_first(), j - 1);
    }
}

proof fn lemma_select_within(inv: Seq<BootstrapSledDescription>, cand: Seq<u32>)
    ensures
        forall|i: int| 0 <= i < select(inv, cand).len() ==> inv.contains(#[trigger] select(inv, cand)[i]),
        forall|i: int| 0 <= i < select(inv, cand).len() ==> cand.contains(#[trigger] select(inv, cand)[i].id.slot),
    decreases inv.len(),
{
    if inv.len() > 0 {
        lemma_select_within(inv.drop_last(), cand);
        let prev = select(inv.drop_last(), cand);
        assert forall|i: int| 0 <= i < prev.len() implies inv.contains(#[trigger] prev[i]) by {
            assert(inv.drop_last().contains(prev[i]));
            let k = choose|k: int| 0 <= k < inv.drop_last().len() && inv.drop_last()[k] == prev[i];
            assert(inv[k] == prev[i]);
        }
        assert(inv[inv.len() - 1] == inv.last());
    }
}

fn find_self_slot(inv: &Vec<BootstrapSledDescription>, b: &Baseboard) -> (r: Option<u32>)
    ensures
        r == self_slot(inv@, *b),
{
    let mut i: usize = 0;
    assert(inv@.subrange(0, inv@.len() as int) =~= inv@);
    while i < inv.len()
        invariant
            0 <= i <= inv.len(),
            self_slot(inv@, *b) == self_slot(inv@.subrange(i as int, inv@.len() as int), *b),
        decreases inv.len() - i,
    {
        assert(inv@.subrange(i as int, inv@.len() as int).drop_first() =~= inv@.subrange(
            i + 1,
            inv@.len() as int,
        ));
        if inv[i].baseboard.same_as(b) {
            return Some(inv[i].id.slot);
        }
        i = i + 1;
    }
    None
}

fn contains_slot(cand: &Vec<u32>, slot: u32) -> (r: bool)
    ensures
        r == cand@.contains(slot),
{
    let mut i: usize = 0;
    while i < cand.len()
        invariant
            0 <= i <= cand.len(),
            forall|j: int| 0 <= j < i ==> cand@[j] != slot,
        decreases cand.len() - i,
    {
        if cand[i] == slot {
            return true;
        }
        i = i + 1;
    }
    false
}

fn find_unknown(inv: &Vec<BootstrapSledDescription>, cand: &Vec<u32>) -> (r: Option<u32>)
    ensures
        r == first_unknown(inv@, cand@),
{
    let mut i: usize = 0;
    assert(cand@.subrange(0, cand@.len() as int) =~= cand@);
    while i < cand.len()
        invariant
            0 <= i <= cand.len(),
            first_unknown(inv@, cand@) == first_unknown(inv@, cand@.subrange(i as int, cand@.len() as int)),
        decreases cand.len() - i,
    {
        assert(cand@.subrange(i as int, cand@.len() as int).drop_first() =~= cand@.subrange(
            i + 1,
            cand@.len() as int,
        ));
        if !inventory_has_slot(inv, cand[i]) {
            return Some(cand[i]);
        }
        i = i + 1;
    }
    None
}

fn select_sleds(inv: &Vec<BootstrapSledDescription>, cand: &Vec<u32>) -> (r: Vec<BootstrapSledDescription>)
    ensures
        r@ == select(inv@, cand@),
{
    let mut out: Vec<BootstrapSledDescription> = Vec::new();
    let mut i: usize = 0;
    while i < inv.len()
        invariant
            0 <= i <= inv.len(),
            out@ == select(inv@.subrange(0, i as int), cand@),
        decreases inv.len() - i,
    {
        assert(inv@.subrange(0, i + 1).drop_last() =~= inv@.subrange(0, i as int));
        if contains_slot(cand, inv[i].id.slot) {
            out.push(inv[i].clone());
        }
        i = i + 1;
    }
    assert(inv@.subrange(0, inv@.len() as int) =~= inv@);
    out
}

impl CurrentRssConfig {
    /// An empty draft, as at the start of a setup session.
    pub fn new() -> (r: CurrentRssConfig)
        ensures
            r.inventory@.len() == 0,
            r.bootstrap_sleds@.len() == 0,
            r.ntp_servers@.len() == 0,
            r.dns_servers@.len() == 0,
            r.internal_services_ip_pool_ranges@.len() == 0,
            r.external_dns_zone_name@.len() == 0,
            r.external_certificates@.len() == 0,
            r.recovery_silo_password_hash is None,
            r.rack_network_config is None,
            r.partial_cert is None,
            r.partial_key is None,
    {
        CurrentRssConfig {
            inventory: Vec::new(),
            bootstrap_sleds: Vec::new(),
            ntp_servers: Vec::new(),
            dns_servers: Vec::new(),
            internal_services_ip_pool_ranges: Vec::new(),
            external_dns_zone_name: String::new(),
            external_certificates: Vec::new(),
            recovery_silo_password_hash: None,
            rack_network_config: None,
            partial_cert: None,
            partial_key: None,
        }
    }

    /// Replaces the inventory with the sleds of `inventory`, each with the bootstrap
    /// address that `bootstrap_peers` knows for it. The selection is left as it is.
    pub fn populate_available_bootstrap_sleds_from_inventory(
        &mut self,
        inventory: &RackInventory,
        bootstrap_peers: &BootstrapPeers,
    )
        ensures
            final(self).inventory@ == inventory_from(inventory.sps@, bootstrap_peers.sleds@),
            *final(self) == (CurrentRssConfig { inventory: final(self).inventory, ..*old(self) }),
    {
        let mut inv: Vec<BootstrapSledDescription> = Vec::new();
        let mut i: usize = 0;
        while i < inventory.sps.len()
            invariant
                0 <= i <= inventory.sps.len(),
                inv@ == inventory_from(inventory.sps@.subrange(0, i as int), bootstrap_peers.sleds@),
            decreases inventory.sps.len() - i,
        {
            assert(inventory.sps@.subrange(0, i + 1).drop_last() =~= inventory.sps@.subrange(0, i as int));
            let sp = &inventory.sps[i];
            match &sp.state {
                Some(st) => {
                    if sp.id.type_ == SpType::Sled && !inventory_has_slot(&inv, sp.id.slot) {
                        let baseboard = Baseboard::new_gimlet(
                            st.serial_number.clone(),
                            st.model.clone(),
                            st.revision as i64,
                        );
                        let bootstrap_ip = lookup_peer(&bootstrap_peers.sleds, &baseboard);
                        inv.push(BootstrapSledDescription { id: sp.id, baseboard, bootstrap_ip });
                    }
                },
                None => {},
            }
            i = i + 1;
        }
        assert(inventory.sps@.subrange(0, inventory.sps@.len() as int) =~= inventory.sps@);
        self.inventory = inv;
    }

    /// Replaces the user-editable fields with `value`, after checking the selection
    /// against the inventory. `our_baseboard` is the board of the node making the call.
    /// A refused update changes nothing.
    pub fn update(
        &mut self,
        value: PutRssUserConfigInsensitive,
        our_baseboard: Option<&Baseboard>,
    ) -> (r: Result<(), UpdateError>)
        ensures
            match update_error(old(self).inventory@, value.bootstrap_sleds@, our_baseboard) {
                Some(e) => r == Err::<(), UpdateError>(e) && *final(self) == *old(self),
                None => {
                    &&& r is Ok
                    &&& final(self).bootstrap_sleds@ == select(old(self).inventory@, value.bootstrap_sleds@)
                    &&& *final(self) == (CurrentRssConfig {
                        bootstrap_sleds: final(self).bootstrap_sleds,
                        ntp_servers: value.ntp_servers,
                        dns_servers: value.dns_servers,
                        internal_services_ip_pool_ranges: value.internal_services_ip_pool_ranges,
                        external_dns_zone_name: value.external_dns_zone_name,
                        rack_network_config: Some(value.rack_network_config),
                        ..*old(self)
                    })
                },
            },
            // A selection naming a slot absent from the inventory is refused.
            (exists|j: int|
                0 <= j < value.bootstrap_sleds@.len() && !has_slot(old(self).inventory@, value.bootstrap_sleds@[j]))
                ==> r is Err && *final(self) == *old(self),
            // The node running this service cannot leave itself out of the rack.
            our_baseboard matches Some(b) ==> (b is Gimlet ==> (self_slot(old(self).inventory@, *b) matches Some(s)
                ==> (!value.bootstrap_sleds@.contains(s) ==> {
                &&& r == Err::<(), UpdateError>(UpdateError::CannotRemoveSelf { slot: s, baseboard: *b })
                &&& *final(self) == *old(self)
            }))),
            // What is selected comes from the inventory and was asked for.
            r is Ok ==> forall|i: int| 0 <= i < final(self).bootstrap_sleds@.len() ==> {
                &&& old(self).inventory@.contains(#[trigger] final(self).bootstrap_sleds@[i])
                &&& value.bootstrap_sleds@.contains(final(self).bootstrap_sleds@[i].id.slot)
            },
    {
        proof {
            lemma_select_within(self.inventory@, value.bootstrap_sleds@);
            if exists|j: int|
                0 <= j < value.bootstrap_sleds@.len() && !has_slot(self.inventory@, value.bootstrap_sleds@[j]) {
                let j = choose|j: int|
                    0 <= j < value.bootstrap_sleds@.len() && !has_slot(self.inventory@, value.bootstrap_sleds@[j]);
                lemma_first_unknown_found(self.inventory@, value.bootstrap_sleds@, j);
            }
        }
        if let Some(ours) = our_baseboard {
            if matches!(ours, Baseboard::Gimlet { .. }) {
                match find_self_slot(&self.inventory, ours) {
                    None => {
                        return Err(UpdateError::SelfMissingFromInventory { baseboard: ours.clone() });
                    },
                    Some(slot) => {
                        if !contains_slot(&value.bootstrap_sleds, slot) {
                            return Err(UpdateError::CannotRemoveSelf { slot, baseboard: ours.clone() });
                        }
                    },
                }
            }
        }
        if let Some(slot) = find_unknown(&self.inventory, &value.bootstrap_sleds) {
            return Err(UpdateError::UnknownSled { slot });
        }
        let bootstrap_sleds = select_sleds(&self.inventory, &value.bootstrap_sleds);
        self.bootstrap_sleds = bootstrap_sleds;
        self.ntp_servers = value.ntp_servers;
        self.dns_servers = value.dns_servers;
        self.internal_services_ip_pool_ranges = value.internal_services_ip_pool_ranges;
        self.external_dns_zone_name = value.external_dns_zone_name;
        self.rack_network_config = Some(value.rack_network_config);
        Ok(())
    }

    /// Records the hash of the recovery user's password.
    pub fn set_recovery_user_password_hash(&mut self, hash: String)
        ensures
            *final(self) == (CurrentRssConfig { recovery_silo_password_hash: Some(hash), ..*old(self) }),
    {
        self.recovery_silo_password_hash = Some(hash);
    }

    /// Stores the certificate half of a pair, replacing any earlier one, and says
    /// whether the key is still awaited.
    pub fn push_cert(&mut self, cert: Vec<u8>) -> (r: CertificateIntake)
        ensures
            *final(self) == (CurrentRssConfig { partial_cert: Some(cert), ..*old(self) }),
            r == (if old(self).partial_key is Some {
                CertificateIntake::ReadyToValidate
            } else {
                CertificateIntake::WaitingOnKey
            }),
    {
        self.partial_cert = Some(cert);
        if self.partial_key.is_some() {
            CertificateIntake::ReadyToValidate
        } else {
            CertificateIntake::WaitingOnKey
        }
    }

    /// Stores the key half of a pair, replacing any earlier one, and says whether the
    /// certificate is still awaited.
    pub fn push_key(&mut self, key: Vec<u8>) -> (r: CertificateIntake)
        ensures
            *final(self) == (CurrentRssConfig { partial_key: Some(key), ..*old(self) }),
            r == (if old(self).partial_cert is Some {
                CertificateIntake::ReadyToValidate
            } else {
                CertificateIntake::WaitingOnCert
            }),
    {
        self.partial_key = Some(key);
        if self.partial_cert.is_some() {
            CertificateIntake::ReadyToValidate
        } else {
            CertificateIntake::WaitingOnCert
        }
    }

    /// Settles the pending certificate upload. With one half present it reports which
    /// half is awaited. With both, `validation` is the verdict on the pair (structure
    /// and matching; expiry is not checked this early): a pair found valid is moved to
    /// the accepted certificates; otherwise the validator's message is returned and
    /// both halves stay where they are.
    pub fn maybe_promote_external_certificate(
        &mut self,
        validation: Result<(), String>,
    ) -> (r: Result<CertificateUploadResponse, String>)
        requires
            old(self).partial_cert is Some || old(self).partial_key is Some,
        ensures
            match (old(self).partial_cert, old(self).partial_key) {
                (Some(c), Some(k)) => match validation {
                    Ok(()) => {
                        &&& r == Ok::<CertificateUploadResponse, String>(CertificateUploadResponse::CertKeyAccepted)
                        &&& final(self).external_certificates@
                            == old(self).external_certificates@.push(Certificate { cert: c, key: k })
                        &&& *final(self) == (CurrentRssConfig {
                            external_certificates: final(self).external_certificates,
                            partial_cert: None,
                            partial_key: None,
                            ..*old(self)
                        })
                    },
                    Err(m) => r == Err::<CertificateUploadResponse, String>(m) && *final(self) == *old(self),
                },
                (Some(_), None) => r == Ok::<CertificateUploadResponse, String>(
                    CertificateUploadResponse::WaitingOnKey,
                ) && *final(self) == *old(self),
                (None, _) => r == Ok::<CertificateUploadResponse, String>(
                    CertificateUploadResponse::WaitingOnCert,
                ) && *final(self) == *old(self),
            },
    {
        if self.partial_cert.is_none() {
            return Ok(CertificateUploadResponse::WaitingOnCert);
        }
        if self.partial_key.is_none() {
            return Ok(CertificateUploadResponse::WaitingOnKey);
        }
        if let Err(m) = validation {
            return Err(m);
        }
        let cert = self.partial_cert.take();
        let key = self.partial_key.take();
        match (cert, key) {
            (Some(cert), Some(key)) => {
                self.external_certificates.push(Certificate { cert, key });
            },
            _ => {},
        }
        Ok(CertificateUploadResponse::CertKeyAccepted)
    }
}

// ---- finalize ----

/// The error for the first selected sled whose bootstrap address `peers` lacks.
pub open spec fn first_unresolved(sel: Seq<BootstrapSledDescription>, peers: Seq<(Baseboard, u128)>) -> Option<
    StartRssError,
>
    decreases sel.len(),
{
    if sel.len() == 0 {
        None
    } else if peer_addr(peers, sel[0].baseboard) is None {
        Some(StartRssError::BootstrapAddressUnknown { slot: sel[0].id.slot, baseboard: sel[0].baseboard })
    } else {
        first_unresolved(sel.drop_first(), peers)
    }
}

/// The bootstrap address of each selected sled, in order.
pub open spec fn resolved_addresses(sel: Seq<BootstrapSledDescription>, peers: Seq<(Baseboard, u128)>) -> Seq<u128> {
    sel.map_values(
        |d: BootstrapSledDescription|
            match peer_addr(peers, d.baseboard) {
                Some(a) => a,
                None => 0,
            },
    )
}

/// Why no request can be built from `c` with the addresses in `peers`: the first
/// missing prerequisite, in a fixed order, then the first unresolved sled.
pub open spec fn start_rss_error(c: CurrentRssConfig, peers: Seq<(Baseboard, u128)>) -> Option<StartRssError> {
    if c.bootstrap_sleds@.len() == 0 {
        Some(StartRssError::NoBootstrapSleds)
    } else if c.ntp_servers@.len() == 0 {
        Some(StartRssError::NoNtpServers)
    } else if c.dns_servers@.len() == 0 {
        Some(StartRssError::NoDnsServers)
    } else if c.internal_services_ip_pool_ranges@.len() == 0 {
        Some(StartRssError::NoInternalServicesIpPoolRanges)
    } else if c.external_dns_zone_name@.len() == 0 {
        Some(StartRssError::NoExternalDnsZoneName)
    } else if c.external_certificates@.len() == 0 {
        Some(StartRssError::NoCertificates)
    } else if c.recovery_silo_password_hash is None {
        Some(StartRssError::RecoveryPasswordNotSet)
    } else if c.rack_network_config is None {
        Some(StartRssError::RackNetworkConfigNotSet)
    } else {
        first_unresolved(c.bootstrap_sleds@, peers)
    }
}

/// `req` is the request assembled from `c` with the addresses in `peers`.
pub open spec fn request_built_from(
    c: CurrentRssConfig,
    peers: Seq<(Baseboard, u128)>,
    req: RackInitializeRequest,
) -> bool {
    &&& req.rack_subnet == RACK_SUBNET
    &&& match req.bootstrap_discovery {
        BootstrapAddressDiscovery::OnlyThese(v) => v@ == resolved_addresses(c.bootstrap_sleds@, peers),
        BootstrapAddressDiscovery::OnlyOurs => false,
    }
    &&& req.rack_secret_threshold == 1
    &&& req.ntp_servers@ == c.ntp_servers@
    &&& req.dns_servers@ == c.dns_servers@
    &&& req.internal_services_ip_pool_ranges@ == c.internal_services_ip_pool_ranges@
    &&& req.external_dns_zone_name == c.external_dns_zone_name
    &&& certs_view(req.external_certificates@) == certs_view(c.external_certificates@)
    &&& req.recovery_silo.silo_name@ == RECOVERY_SILO_NAME@
    &&& req.recovery_silo.user_name@ == RECOVERY_SILO_USERNAME@
    &&& c.recovery_silo_password_hash == Some(req.recovery_silo.user_password_hash)
    &&& match (c.rack_network_config, req.rack_network_config) {
        (Some(n), Some(w)) => wire_matches(n, w),
        _ => false,
    }
}

/// `r` is what finalizing `c` against `peers` gives: the first reason for refusal if
/// there is one, else a request built from `c`.
pub open spec fn start_rss_outcome(
    c: CurrentRssConfig,
    peers: Seq<(Baseboard, u128)>,
    r: Result<RackInitializeRequest, StartRssError>,
) -> bool {
    match start_rss_error(c, peers) {
        Some(e) => r == Err::<RackInitializeRequest, StartRssError>(e),
        None => r matches Ok(req) && request_built_from(c, peers, req),
    }
}

/// Two requests carry the same contents, field by field.
pub open spec fn same_request(a: RackInitializeRequest, b: RackInitializeRequest) -> bool {
    &&& a.rack_subnet == b.rack_subnet
    &&& match (a.bootstrap_discovery, b.bootstrap_discovery) {
        (BootstrapAddressDiscovery::OnlyThese(x), BootstrapAddressDiscovery::OnlyThese(y)) => x@ == y@,
        (BootstrapAddressDiscovery::OnlyOurs, BootstrapAddressDiscovery::OnlyOurs) => true,
        _ => false,
    }
    &&& a.rack_secret_threshold == b.rack_secret_threshold
    &&& a.ntp_servers@ == b.ntp_servers@
    &&& a.dns_servers@ == b.dns_servers@
    &&& a.internal_services_ip_pool_ranges@ == b.internal_services_ip_pool_ranges@
    &&& a.external_dns_zone_name == b.external_dns_zone_name
    &&& certs_view(a.external_certificates@) == certs_view(b.external_certificates@)
    &&& a.recovery_silo.silo_name@ == b.recovery_silo.silo_name@
    &&& a.recovery_silo.user_name@ == b.recovery_silo.user_name@
    &&& a.recovery_silo.user_password_hash == b.recovery_silo.user_password_hash
    &&& a.rack_network_config == b.rack_network_config
}

fn clone_certificates(certs: &Vec<Certificate>) -> (r: Vec<Certificate>)
    ensures
        certs_view(r@) == certs_view(certs@),
{
    let mut out: Vec<Certificate> = Vec::new();
    let mut i: usize = 0;
    while i < certs.len()
        invariant
            0 <= i <= certs.len(),
            out@.len() == i,
            forall|j: int| 0 <= j < i ==> #[trigger] out@[j]@ == certs@[j]@,
        decreases certs.len() - i,
    {
        let c = certs[i].clone();
        out.push(c);
        i = i + 1;
    }
    assert(certs_view(out@) =~= certs_view(certs@));
    out
}

fn clone_strings(v: &Vec<String>) -> (r: Vec<String>)
    ensures
        r@ == v@,
{
    let r = v.clone();
    assert(r@ =~= v@);
    r
}

impl CurrentRssConfig {
    /// Builds the request that starts rack setup, once every prerequisite is present
    /// and every selected sled has a bootstrap address in `bootstrap_peers`.
    pub fn start_rss_request(&self, bootstrap_peers: &BootstrapPeers) -> (r: Result<
        RackInitializeRequest,
        StartRssError,
    >)
        ensures
            start_rss_outcome(*self, bootstrap_peers.sleds@, r),
    {
        if self.bootstrap_sleds.len() == 0 {
            return Err(StartRssError::NoBootstrapSleds);
        }
        if self.ntp_servers.len() == 0 {
            return Err(StartRssError::NoNtpServers);
        }
        if self.dns_servers.len() == 0 {
            return Err(StartRssError::NoDnsServers);
        }
        if self.internal_services_ip_pool_ranges.len() == 0 {
            return Err(StartRssError::NoInternalServicesIpPoolRanges);
        }
        if self.external_dns_zone_name.as_str().is_empty() {
            return Err(StartRssError::NoExternalDnsZoneName);
        }
        if self.external_certificates.len() == 0 {
            return Err(StartRssError::NoCertificates);
        }
        let password_hash = match &self.recovery_silo_password_hash {
            Some(h) => h,
            None => {
                return Err(StartRssError::RecoveryPasswordNotSet);
            },
        };
        let network = match &self.rack_network_config {
            Some(n) => n,
            None => {
                return Err(StartRssError::RackNetworkConfigNotSet);
            },
        };
        let rack_network_config = validate_rack_network_config(network);

        let ghost sel = self.bootstrap_sleds@;
        let ghost peers = bootstrap_peers.sleds@;
        assert(start_rss_error(*self, peers) == first_unresolved(sel, peers));
        let mut bootstrap_ips: Vec<u128> = Vec::new();
        let mut i: usize = 0;
        assert(sel.subrange(0, sel.len() as int) =~= sel);
        while i < self.bootstrap_sleds.len()
            invariant
                0 <= i <= sel.len(),
                sel == self.bootstrap_sleds@,
                peers == bootstrap_peers.sleds@,
                start_rss_error(*self, peers) == first_unresolved(sel, peers),
                first_unresolved(sel, peers) == first_unresolved(sel.subrange(i as int, sel.len() as int), peers),
                bootstrap_ips@ == resolved_addresses(sel.subrange(0, i as int), peers),
            decreases sel.len() - i,
        {
            assert(sel.subrange(i as int, sel.len() as int).drop_first() =~= sel.subrange(i + 1, sel.len() as int));
            let sled = &self.bootstrap_sleds[i];
            assert(sel.subrange(i as int, sel.len() as int)[0] == sel[i as int]);
            match lookup_peer(&bootstrap_peers.sleds, &sled.baseboard) {
                Some(ip) => {
                    assert(resolved_addresses(sel.subrange(0, i + 1), peers) =~= bootstrap_ips@.push(ip));
                    bootstrap_ips.push(ip);
                },
                None => {
                    let baseboard = sled.baseboard.clone();
                    return Err(StartRssError::BootstrapAddressUnknown { slot: sled.id.slot, baseboard });
                },
            }
            i = i + 1;
        }
        assert(sel.subrange(0, sel.len() as int) =~= sel);

        let request = RackInitializeRequest {
            rack_subnet: RACK_SUBNET,
            bootstrap_discovery: BootstrapAddressDiscovery::OnlyThese(bootstrap_ips),
            rack_secret_threshold: 1,
            ntp_servers: clone_strings(&self.ntp_servers),
            dns_servers: clone_strings(&self.dns_servers),
            internal_services_ip_pool_ranges: self.internal_services_ip_pool_ranges.clone(),
            external_dns_zone_name: self.external_dns_zone_name.clone(),
            external_certificates: clone_certificates(&self.external_certificates),
            recovery_silo: RecoverySiloConfig {
                silo_name: RECOVERY_SILO_NAME.to_owned(),
                user_name: RECOVERY_SILO_USERNAME.to_owned(),
                user_password_hash: password_hash.clone(),
            },
            rack_network_config: Some(rack_network_config),
        };
        assert(request.internal_services_ip_pool_ranges@ =~= self.internal_services_ip_pool_ranges@);
        Ok(request)
    }
}

/// Finalizing is repeatable: two calls on the same draft with the same known
/// addresses refuse for the same reason, or both build requests with equal contents.
pub proof fn lemma_start_rss_request_repeatable(
    c: CurrentRssConfig,
    peers: Seq<(Baseboard, u128)>,
    r1: Result<RackInitializeRequest, StartRssError>,
    r2: Result<RackInitializeRequest, StartRssError>,
)
    requires
        start_rss_outcome(c, peers, r1),
        start_rss_outcome(c, peers, r2),
    ensures
        r1 is Err <==> r2 is Err,
        r1 is Err ==> r1 == r2,
        r1 matches Ok(a) ==> (r2 matches Ok(b) ==> same_request(a, b)),
{
    if let (Ok(a), Ok(b)) = (r1, r2) {
        crate::network::lemma_wire_translation_deterministic(
            c.rack_network_config->Some_0,
            a.rack_network_config->Some_0,
            b.rack_network_config->Some_0,
        );
    }
}

// ---- display ----

/// What the snapshot shows of the secrets of `c`: how many certificate pairs it
/// holds and whether a password hash is set.
pub open spec fn sensitive_of(c: CurrentRssConfig) -> CurrentRssUserConfigSensitive {
    CurrentRssUserConfigSensitive {
        num_external_certificates: c.external_certificates@.len() as usize,
        recovery_silo_password_set: c.recovery_silo_password_hash is Some,
    }
}

/// The snapshot reveals nothing of the secrets themselves: drafts with as many
/// certificate pairs, and a password hash set alike, show the same secret part,
/// whatever the certificates, keys and hashes hold.
pub proof fn lemma_snapshot_hides_secret_content(c1: CurrentRssConfig, c2: CurrentRssConfig)
    requires
        c1.external_certificates@.len() == c2.external_certificates@.len(),
        c1.recovery_silo_password_hash is Some <==> c2.recovery_silo_password_hash is Some,
    ensures
        sensitive_of(c1) == sensitive_of(c2),
{
}

impl CurrentRssUserConfig {
    /// A display-safe view of `rss`: counts and flags in place of secrets, and the
    /// whole inventory as the selection while none has been made.
    pub fn from_config(rss: &CurrentRssConfig) -> (r: CurrentRssUserConfig)
        ensures
            r.sensitive == sensitive_of(*rss),
            r.insensitive.bootstrap_sleds@ == if rss.bootstrap_sleds@.len() == 0 {
                rss.inventory@
            } else {
                rss.bootstrap_sleds@
            },
            r.insensitive.ntp_servers@ == rss.ntp_servers@,
            r.insensitive.dns_servers@ == rss.dns_servers@,
            r.insensitive.internal_services_ip_pool_ranges@ == rss.internal_services_ip_pool_ranges@,
            r.insensitive.external_dns_zone_name == rss.external_dns_zone_name,
            r.insensitive.rack_network_config == rss.rack_network_config,
    {
        let bootstrap_sleds = if rss.bootstrap_sleds.len() != 0 {
            rss.bootstrap_sleds.clone()
        } else {
            rss.inventory.clone()
        };
        assert(bootstrap_sleds@ =~= if rss.bootstrap_sleds@.len() == 0 {
            rss.inventory@
        } else {
            rss.bootstrap_sleds@
        });
        let ranges = rss.internal_services_ip_pool_ranges.clone();
        assert(ranges@ =~= rss.internal_services_ip_pool_ranges@);
        CurrentRssUserConfig {
            sensitive: CurrentRssUserConfigSensitive {
                num_external_certificates: rss.external_certificates.len(),
                recovery_silo_password_set: rss.recovery_silo_password_hash.is_some(),
            },
            insensitive: CurrentRssUserConfigInsensitive {
                bootstrap_sleds,
                ntp_servers: clone_strings(&rss.ntp_servers),
                dns_servers: clone_strings(&rss.dns_servers),
                internal_services_ip_pool_ranges: ranges,
                external_dns_zone_name: rss.external_dns_zone_name.clone(),
                rack_network_config: match &rss.rack_network_config {
                    Some(n) => Some(n.clone()),
                    None => None,
                },
            },
        }
    }
}

} // verus!
