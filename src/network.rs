use vstd::prelude::*;
use crate::types::{PortFec, PortSpeed, RackNetworkConfig, WirePortFec, WirePortSpeed, WireRackNetworkConfig};

verus! {

/// The speed an operator's port setting stands for, in gigabits per second.
pub open spec fn speed_gbps(s: PortSpeed) -> nat {
    match s {
        PortSpeed::Speed0G => 0,
        PortSpeed::Speed1G => 1,
        PortSpeed::Speed10G => 10,
        PortSpeed::Speed25G => 25,
        PortSpeed::Speed40G => 40,
        PortSpeed::Speed50G => 50,
        PortSpeed::Speed100G => 100,
        PortSpeed::Speed200G => 200,
        PortSpeed::Speed400G => 400,
    }
}

/// The speed a wire port setting stands for, in gigabits per second.
pub open spec fn wire_speed_gbps(s: WirePortSpeed) -> nat {
    match s {
        WirePortSpeed::Speed0G => 0,
        WirePortSpeed::Speed1G => 1,
        WirePortSpeed::Speed10G => 10,
        WirePortSpeed::Speed25G => 25,
        WirePortSpeed::Speed40G => 40,
        WirePortSpeed::Speed50G => 50,
        WirePortSpeed::Speed100G => 100,
        WirePortSpeed::Speed200G => 200,
        WirePortSpeed::Speed400G => 400,
    }
}

/// The error-correction scheme an operator's setting names: none, Firecode or Reed-Solomon.
pub open spec fn fec_scheme(f: PortFec) -> nat {
    match f {
        PortFec::Off => 0,
        PortFec::Firecode => 1,
        PortFec::Rs => 2,
    }
}

/// The error-correction scheme a wire setting names.
pub open spec fn wire_fec_scheme(f: WirePortFec) -> nat {
    match f {
        WirePortFec::Off => 0,
        WirePortFec::Firecode => 1,
        WirePortFec::Rs => 2,
    }
}

/// `w` carries the same settings as `c`, field by field.
pub open spec fn wire_matches(c: RackNetworkConfig, w: WireRackNetworkConfig) -> bool {
    &&& w.gateway_ip == c.gateway_ip
    &&& w.infra_ip_first == c.infra_ip_first
    &&& w.infra_ip_last == c.infra_ip_last
    &&& w.uplink_port == c.uplink_port
    &&& wire_speed_gbps(w.uplink_port_speed) == speed_gbps(c.uplink_port_speed)
    &&& wire_fec_scheme(w.uplink_port_fec) == fec_scheme(c.uplink_port_fec)
    &&& w.uplink_ip == c.uplink_ip
    &&& w.uplink_vid == c.uplink_vid
}

/// Translates the operator's uplink settings into the provisioning service's form.
pub fn validate_rack_network_config(config: &RackNetworkConfig) -> (r: WireRackNetworkConfig)
    ensures
        wire_matches(*config, r),
{
    WireRackNetworkConfig {
        gateway_ip: config.gateway_ip,
        infra_ip_first: config.infra_ip_first,
        infra_ip_last: config.infra_ip_last,
        uplink_port: config.uplink_port.clone(),
        uplink_port_speed: match config.uplink_port_speed {
            PortSpeed::Speed0G => WirePortSpeed::Speed0G,
            PortSpeed::Speed1G => WirePortSpeed::Speed1G,
            PortSpeed::Speed10G => WirePortSpeed::Speed10G,
            PortSpeed::Speed25G => WirePortSpeed::Speed25G,
            PortSpeed::Speed40G => WirePortSpeed::Speed40G,
            PortSpeed::Speed50G => WirePortSpeed::Speed50G,
            PortSpeed::Speed100G => WirePortSpeed::Speed100G,
            PortSpeed::Speed200G => WirePortSpeed::Speed200G,
            PortSpeed::Speed400G => WirePortSpeed::Speed400G,
        },
        uplink_port_fec: match config.uplink_port_fec {
            PortFec::Firecode => WirePortFec::Firecode,
            PortFec::Off => WirePortFec::Off,
            PortFec::Rs => WirePortFec::Rs,
        },
        uplink_ip: config.uplink_ip,
        uplink_vid: config.uplink_vid,
    }
}

/// Equal wire settings come only from equal operator settings: the translation loses nothing.
pub proof fn lemma_wire_translation_lossless(
    c1: RackNetworkConfig,
    c2: RackNetworkConfig,
    w: WireRackNetworkConfig,
)
    requires
        wire_matches(c1, w),
        wire_matches(c2, w),
    ensures
        c1 == c2,
{
}

/// The translation is a function: one operator setting has exactly one wire form.
pub proof fn lemma_wire_translation_deterministic(
    c: RackNetworkConfig,
    w1: WireRackNetworkConfig,
    w2: WireRackNetworkConfig,
)
    requires
        wire_matches(c, w1),
        wire_matches(c, w2),
    ensures
        w1 == w2,
{
}

} // verus!
