use vstd::prelude::*;

verus! {

/// Number of color slots an extended zone report carries on the wire.
pub const ZONE_CAPACITY: usize = 82;

/// One color setting, as the wire format carries it: hue, saturation,
/// brightness and kelvin.
#[derive(Clone, Copy, PartialEq, Eq, Structural, Debug)]
pub struct Hsbk {
    pub hue: u16,
    pub saturation: u16,
    pub brightness: u16,
    pub kelvin: u16,
}

/// A device power setting: only standby and full power exist on the wire.
#[derive(Clone, Copy, PartialEq, Eq, Structural, Debug)]
pub enum PowerLevel {
    Standby,
    Enabled,
}

/// Everything the codec needs to frame an outbound message: the addressed
/// device, the acknowledgement and response flags, the session source tag and
/// the rolling sequence number.
#[derive(Clone, Copy, PartialEq, Eq, Debug)]
pub struct BuildOptions {
    /// Identity of the addressed device; `None` broadcasts to every device.
    pub target: Option<u64>,
    pub ack_required: bool,
    pub res_required: bool,
    pub sequence: u8,
    pub source: u32,
}

/// The protocol messages this registry reads or produces. Their byte-level
/// encoding is the codec's business, outside this crate's core; each variant
/// holds the decoded fields the registry logic depends on.
#[derive(Debug)]
#[allow(inconsistent_fields)]
pub enum Message {
    GetService,
    StateService { port: u32, service_is_udp: bool },
    GetHostFirmware,
    StateHostFirmware { version_major: u16, version_minor: u16 },
    GetWifiFirmware,
    StateWifiFirmware { version_major: u16, version_minor: u16 },
    GetPower,
    SetPower { level: PowerLevel },
    StatePower { level: u16 },
    GetLabel,
    StateLabel { label: String },
    GetVersion,
    StateVersion { vendor: u32, product: u32 },
    GetLocation,
    StateLocation { label: String },
    LightGet,
    LightSetColor { color: Hsbk, duration: u32 },
    LightState { color: Hsbk, power: u16, label: String },
    LightSetPower { level: u16, duration: u32 },
    GetColorZones { start_index: u8, end_index: u8 },
    StateZone { count: u8, index: u8, color: Hsbk },
    StateMultiZone { count: u8, index: u8, colors: [Hsbk; 8] },
    SetExtendedColorZones { duration: u32, zone_index: u16, colors_count: u8, colors: Vec<Hsbk> },
    GetExtendedColorZone,
    StateExtendedColorZones { zones_count: u16, zone_index: u16, colors_count: u8, colors: Vec<Hsbk> },
    Acknowledgement { seq: u8 },
    /// Any message kind the registry ignores.
    Other,
}

impl Message {
    /// An extended zone report always carries exactly `ZONE_CAPACITY` color
    /// slots; the codec guarantees this of every decoded message.
    pub open spec fn wf(self) -> bool {
        match self {
            Message::SetExtendedColorZones { colors, .. } => colors@.len() == ZONE_CAPACITY,
            Message::StateExtendedColorZones { colors, .. } => colors@.len() == ZONE_CAPACITY,
            _ => true,
        }
    }

    /// The two message kinds that carry a whole zone color vector. Every
    /// other kind is a plain value that a clone reproduces exactly.
    pub open spec fn has_zone_colors(self) -> bool {
        self is SetExtendedColorZones || self is StateExtendedColorZones
    }
}

/// An element-for-element copy of a color vector.
pub fn copy_colors(v: &Vec<Hsbk>) -> (r: Vec<Hsbk>)
    ensures
        r@ == v@,
{
    let mut r: Vec<Hsbk> = Vec::new();
    let mut i: usize = 0;
    while i < v.len()
        invariant
            i <= v.len(),
            r@ == v@.take(i as int),
        decreases v.len() - i,
    {
        r.push(v[i]);
        proof {
            assert(v@.take(i as int).push(v@[i as int]) =~= v@.take(i as int + 1));
        }
        i = i + 1;
    }
    proof {
        assert(v@.take(v@.len() as int) =~= v@);
    }
    r
}

impl Clone for Message {
    fn clone(&self) -> (r: Message)
        ensures
            !self.has_zone_colors() ==> r == *self,
            *self matches Message::SetExtendedColorZones { duration, zone_index, colors_count, colors }
                ==> (r matches Message::SetExtendedColorZones {
                    duration: d2, zone_index: z2, colors_count: c2, colors: v2 }
                    && d2 == duration && z2 == zone_index && c2 == colors_count && v2@ == colors@),
            *self matches Message::StateExtendedColorZones { zones_count, zone_index, colors_count, colors }
                ==> (r matches Message::StateExtendedColorZones {
                    zones_count: n2, zone_index: z2, colors_count: c2, colors: v2 }
                    && n2 == zones_count && z2 == zone_index && c2 == colors_count && v2@ == colors@),
    {
        match self {
            Message::GetService => Message::GetService,
            Message::StateService { port, service_is_udp } => Message::StateService {
                port: *port,
                service_is_udp: *service_is_udp,
            },
            Message::GetHostFirmware => Message::GetHostFirmware,
            Message::StateHostFirmware { version_major, version_minor } => Message::StateHostFirmware {
                version_major: *version_major,
                version_minor: *version_minor,
            },
            Message::GetWifiFirmware => Message::GetWifiFirmware,
            Message::StateWifiFirmware { version_major, version_minor } => Message::StateWifiFirmware {
                version_major: *version_major,
                version_minor: *version_minor,
            },
            Message::GetPower => Message::GetPower,
            Message::SetPower { level } => Message::SetPower { level: *level },
            Message::StatePower { level } => Message::StatePower { level: *level },
            Message::GetLabel => Message::GetLabel,
            Message::StateLabel { label } => Message::StateLabel { label: label.clone() },
            Message::GetVersion => Message::GetVersion,
            Message::StateVersion { vendor, product } => Message::StateVersion {
                vendor: *vendor,
                product: *product,
            },
            Message::GetLocation => Message::GetLocation,
            Message::StateLocation { label } => Message::StateLocation { label: label.clone() },
            Message::LightGet => Message::LightGet,
            Message::LightSetColor { color, duration } => Message::LightSetColor {
                color: *color,
                duration: *duration,
            },
            Message::LightState { color, power, label } => Message::LightState {
                color: *color,
                power: *power,
                label: label.clone(),
            },
            Message::LightSetPower { level, duration } => Message::LightSetPower {
                level: *level,
                duration: *duration,
            },
            Message::GetColorZones { start_index, end_index } => Message::GetColorZones {
                start_index: *start_index,
                end_index: *end_index,
            },
            Message::StateZone { count, index, color } => Message::StateZone {
                count: *count,
                index: *index,
                color: *color,
            },
            Message::StateMultiZone { count, index, colors } => Message::StateMultiZone {
                count: *count,
                index: *index,
                colors: *colors,
            },
            Message::SetExtendedColorZones { duration, zone_index, colors_count, colors } => {
                Message::SetExtendedColorZones {
                    duration: *duration,
                    zone_index: *zone_index,
                    colors_count: *colors_count,
                    colors: copy_colors(colors),
                }
            },
            Message::GetExtendedColorZone => Message::GetExtendedColorZone,
            Message::StateExtendedColorZones { zones_count, zone_index, colors_count, colors } => {
                Message::StateExtendedColorZones {
                    zones_count: *zones_count,
                    zone_index: *zone_index,
                    colors_count: *colors_count,
                    colors: copy_colors(colors),
                }
            },
            Message::Acknowledgement { seq } => Message::Acknowledgement { seq: *seq },
            Message::Other => Message::Other,
        }
    }
}

} // verus!
