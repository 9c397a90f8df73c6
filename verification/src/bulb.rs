use vstd::prelude::*;

use crate::address::Addr;
use crate::errors::BulbError;
use crate::messages::{BuildOptions, Hsbk, Message, PowerLevel, ZONE_CAPACITY};
use crate::products::product_multizone;
use crate::refreshable::{RefreshableData, FIFTEEN_SECONDS_MILLIS, HOUR_MILLIS};

verus! {

/// The zone window an extended zone report carries: the device's total zone
/// count, the window's starting index, how many entries of the window are
/// meaningful, and the full fixed-size color array.
#[derive(Debug)]
pub struct Zones {
    pub zones_count: u16,
    pub zone_index: u16,
    pub colors_count: u8,
    pub colors: Vec<Hsbk>,
}

impl Zones {
    pub open spec fn wf(self) -> bool {
        self.colors@.len() == ZONE_CAPACITY
    }
}

/// What is known of a device's color so far. Every record starts `Unknown`;
/// a capability reply moves it, exactly once, to `Single` or `Multi`, and
/// the variant never changes again.
#[derive(Debug)]
pub enum Color {
    Unknown,
    Single(RefreshableData<Hsbk>),
    Multi(RefreshableData<Vec<Option<Hsbk>>>),
}

/// The bare variant of a `Color`, for stating which state the machine is in.
#[derive(Clone, Copy, PartialEq, Eq, Structural, Debug)]
pub enum ColorKind {
    Unknown,
    Single,
    Multi,
}

impl Color {
    pub open spec fn kind(self) -> ColorKind {
        match self {
            Color::Unknown => ColorKind::Unknown,
            Color::Single(_) => ColorKind::Single,
            Color::Multi(_) => ColorKind::Multi,
        }
    }

    pub open spec fn wf(self) -> bool {
        match self {
            Color::Unknown => true,
            Color::Single(d) => !d.refresh_msg.has_zone_colors(),
            Color::Multi(d) => !d.refresh_msg.has_zone_colors(),
        }
    }
}

/// Everything known of one device: when and where it was last heard, the
/// options outbound messages are framed with, a staleness-tracked slot for
/// each piece of metadata, and the color state machine.
#[derive(Debug)]
pub struct BulbInfo {
    pub last_seen: u64,
    pub options: BuildOptions,
    pub addr: Addr,
    pub name: RefreshableData<String>,
    pub model: RefreshableData<(u32, u32)>,
    pub location: RefreshableData<String>,
    pub host_firmware: RefreshableData<(u16, u16)>,
    pub wifi_firmware: RefreshableData<(u16, u16)>,
    pub power_level: RefreshableData<u16>,
    pub zones: RefreshableData<Zones>,
    pub color: Color,
}

/// The zone sequence a multizone slot holds; when it holds none yet, the
/// freshly allocated all-unknown sequence of `count` entries a first zone
/// report would create.
pub open spec fn zone_seq(d: RefreshableData<Vec<Option<Hsbk>>>, count: u8) -> Seq<Option<Hsbk>> {
    match d.data {
        Some(v) => v@,
        None => Seq::new(count as nat, |i: int| None::<Hsbk>),
    }
}

/// Relates a multizone slot before and after the zone entries
/// `index .. index + colors.len()` were overwritten with `colors`. The slot's
/// window and timestamp are untouched: zone reports write color cells in
/// place, they do not count as a refresh of the whole array.
pub open spec fn zone_write(
    d: RefreshableData<Vec<Option<Hsbk>>>,
    d2: RefreshableData<Vec<Option<Hsbk>>>,
    count: u8,
    index: u8,
    colors: Seq<Hsbk>,
) -> bool {
    let s = zone_seq(d, count);
    &&& d2.max_age == d.max_age
    &&& d2.last_updated == d.last_updated
    &&& d2.refresh_msg == d.refresh_msg
    &&& d2.data matches Some(v2) && v2@ == Seq::new(
        s.len(),
        |j: int| if index <= j < index + colors.len() { Some(colors[j - index]) } else { s[j] },
    )
}

impl BulbInfo {
    /// The record made for a device heard for the first time at `now` from
    /// `addr`: address and options filled in, every metadata slot empty,
    /// color capability unknown.
    pub open spec fn new_spec(source: u32, target: u64, addr: Addr, now: u64) -> BulbInfo {
        BulbInfo {
            last_seen: now,
            addr,
            options: BuildOptions {
                target: Some(target),
                ack_required: true,
                res_required: true,
                sequence: 0,
                source,
            },
            name: RefreshableData::empty_spec(HOUR_MILLIS, Message::GetLabel, now),
            model: RefreshableData::empty_spec(HOUR_MILLIS, Message::GetVersion, now),
            location: RefreshableData::empty_spec(HOUR_MILLIS, Message::GetLocation, now),
            host_firmware: RefreshableData::empty_spec(HOUR_MILLIS, Message::GetHostFirmware, now),
            wifi_firmware: RefreshableData::empty_spec(HOUR_MILLIS, Message::GetWifiFirmware, now),
            power_level: RefreshableData::empty_spec(
                FIFTEEN_SECONDS_MILLIS,
                Message::GetPower,
                now,
            ),
            zones: RefreshableData::empty_spec(
                FIFTEEN_SECONDS_MILLIS,
                Message::GetExtendedColorZone,
                now,
            ),
            color: Color::Unknown,
        }
    }

    /// The record after another datagram from `addr` arrived at `now`.
    pub open spec fn seen_spec(self, addr: Addr, now: u64) -> BulbInfo {
        BulbInfo { last_seen: now, addr, ..self }
    }

    /// The record after a version reply `(vendor, product)` whose capability
    /// lookup gave `multizone`: the model slot is overwritten, and when the
    /// color state is still unknown and the lookup knows the product, the
    /// color state machine takes its one transition and seeds the matching
    /// refresh query.
    pub open spec fn version_spec(
        self,
        vendor: u32,
        product: u32,
        multizone: Option<bool>,
        now: u64,
    ) -> BulbInfo {
        let with_model = BulbInfo { model: self.model.updated((vendor, product), now), ..self };
        if self.color is Unknown {
            match multizone {
                Some(true) => BulbInfo {
                    color: Color::Multi(
                        RefreshableData::empty_spec(
                            FIFTEEN_SECONDS_MILLIS,
                            Message::GetColorZones { start_index: 0, end_index: 255 },
                            now,
                        ),
                    ),
                    ..with_model
                },
                Some(false) => BulbInfo {
                    color: Color::Single(
                        RefreshableData::empty_spec(FIFTEEN_SECONDS_MILLIS, Message::LightGet, now),
                    ),
                    ..with_model
                },
                None => with_model,
            }
        } else {
            with_model
        }
    }

    /// Internal consistency of a record: any held zone window carries the
    /// full color array, and no refresh query carries one.
    pub open spec fn wf(self) -> bool {
        &&& self.zones.data matches Some(z) ==> z.wf()
        &&& !self.name.refresh_msg.has_zone_colors()
        &&& !self.model.refresh_msg.has_zone_colors()
        &&& !self.location.refresh_msg.has_zone_colors()
        &&& !self.host_firmware.refresh_msg.has_zone_colors()
        &&& !self.wifi_firmware.refresh_msg.has_zone_colors()
        &&& !self.power_level.refresh_msg.has_zone_colors()
        &&& !self.zones.refresh_msg.has_zone_colors()
        &&& self.color.wf()
    }

    pub fn new(source: u32, target: u64, addr: Addr, now: u64) -> (r: BulbInfo)
        ensures
            r == Self::new_spec(source, target, addr, now),
            r.wf(),
    {
        BulbInfo {
            last_seen: now,
            addr,
            options: BuildOptions {
                target: Some(target),
                ack_required: true,
                res_required: true,
                sequence: 0,
                source,
            },
            name: RefreshableData::empty(HOUR_MILLIS, Message::GetLabel, now),
            model: RefreshableData::empty(HOUR_MILLIS, Message::GetVersion, now),
            location: RefreshableData::empty(HOUR_MILLIS, Message::GetLocation, now),
            host_firmware: RefreshableData::empty(HOUR_MILLIS, Message::GetHostFirmware, now),
            wifi_firmware: RefreshableData::empty(HOUR_MILLIS, Message::GetWifiFirmware, now),
            power_level: RefreshableData::empty(FIFTEEN_SECONDS_MILLIS, Message::GetPower, now),
            zones: RefreshableData::empty(
                FIFTEEN_SECONDS_MILLIS,
                Message::GetExtendedColorZone,
                now,
            ),
            color: Color::Unknown,
        }
    }

    /// Note that the device was heard from again: refresh its address and
    /// the time it was last seen.
    pub fn update(&mut self, addr: Addr, now: u64)
        ensures
            *final(self) == old(self).seen_spec(addr, now),
    {
        self.last_seen = now;
        self.addr = addr;
    }

    /// Overwrite the model slot and, when the color state is still unknown
    /// and the capability lookup knows the product, take the color state
    /// machine's one transition.
    pub fn apply_version(&mut self, vendor: u32, product: u32, multizone: Option<bool>, now: u64)
        ensures
            *final(self) == old(self).version_spec(vendor, product, multizone, now),
    {
        let is_unknown = match &self.color {
            Color::Unknown => true,
            _ => false,
        };
        self.model.update((vendor, product), now);
        if is_unknown {
            match multizone {
                Some(true) => {
                    self.color = Color::Multi(
                        RefreshableData::empty(
                            FIFTEEN_SECONDS_MILLIS,
                            Message::GetColorZones { start_index: 0, end_index: 255 },
                            now,
                        ),
                    );
                },
                Some(false) => {
                    self.color = Color::Single(
                        RefreshableData::empty(FIFTEEN_SECONDS_MILLIS, Message::LightGet, now),
                    );
                },
                None => {},
            }
        }
    }

    /// Write one reported zone color. The first report allocates the zone
    /// array at the reported total; a report whose index lies beyond the
    /// array, or beyond its own reported total, is rejected and changes
    /// nothing. A record that is not known multizone ignores the report.
    pub fn apply_single_zone(&mut self, count: u8, index: u8, color: Hsbk) -> (r: Result<
        (),
        BulbError,
    >)
        ensures
            *final(self) == (BulbInfo { color: final(self).color, ..*old(self) }),
            match old(self).color {
                Color::Multi(d) => {
                    if index as int + 1 <= zone_seq(d, count).len() && index as int + 1
                        <= count as int {
                        &&& r is Ok
                        &&& final(self).color matches Color::Multi(d2) && zone_write(
                            d,
                            d2,
                            count,
                            index,
                            seq![color],
                        )
                    } else {
                        &&& *final(self) == *old(self)
                        &&& r == Err::<(), BulbError>(BulbError::ZoneIndexOutOfRange)
                    }
                },
                _ => *final(self) == *old(self) && r is Ok,
            },
    {
        match &mut self.color {
            Color::Multi(d) => {
                let cur_len: usize = match &d.data {
                    Some(v) => v.len(),
                    None => count as usize,
                };
                if (index as usize) < cur_len && index < count {
                    if d.data.is_none() {
                        d.data = Some(unknown_zones(count));
                    }
                    match &mut d.data {
                        Some(v) => {
                            let ghost s0 = v@;
                            v.set(index as usize, Some(color));
                            proof {
                                let cs = seq![color];
                                assert(v@ =~= Seq::new(
                                    s0.len(),
                                    |j: int|
                                        if index <= j < index + cs.len() {
                                            Some(cs[j - index])
                                        } else {
                                            s0[j]
                                        },
                                ));
                            }
                        },
                        None => {
                            proof {
                                assert(false);
                            }
                        },
                    }
                    Ok(())
                } else {
                    Err(BulbError::ZoneIndexOutOfRange)
                }
            },
            _ => Ok(()),
        }
    }

    /// Write eight consecutive reported zone colors. The first report
    /// allocates the zone array at the reported total; a batch whose window
    /// runs beyond the array, or beyond its own reported total, is rejected
    /// whole and changes nothing.
    pub fn apply_zone_batch(&mut self, count: u8, index: u8, colors: &[Hsbk; 8]) -> (r: Result<
        (),
        BulbError,
    >)
        ensures
            *final(self) == (BulbInfo { color: final(self).color, ..*old(self) }),
            match old(self).color {
                Color::Multi(d) => {
                    if index as int + 8 <= zone_seq(d, count).len() && index as int + 8
                        <= count as int {
                        &&& r is Ok
                        &&& final(self).color matches Color::Multi(d2) && zone_write(
                            d,
                            d2,
                            count,
                            index,
                            colors@,
                        )
                    } else {
                        &&& *final(self) == *old(self)
                        &&& r == Err::<(), BulbError>(BulbError::ZoneIndexOutOfRange)
                    }
                },
                _ => *final(self) == *old(self) && r is Ok,
            },
    {
        match &mut self.color {
            Color::Multi(d) => {
                let cur_len: usize = match &d.data {
                    Some(v) => v.len(),
                    None => count as usize,
                };
                if index as usize + 8 <= cur_len && index as usize + 8 <= count as usize {
                    if d.data.is_none() {
                        d.data = Some(unknown_zones(count));
                    }
                    match &mut d.data {
                        Some(v) => {
                            let ghost s0 = v@;
                            let mut k: usize = 0;
                            while k < 8
                                invariant
                                    index as usize + 8 <= s0.len(),
                                    k <= 8,
                                    v@.len() == s0.len(),
                                    forall|j: int|
                                        0 <= j < s0.len() && !(index <= j < index + k) ==> v@[j]
                                            == s0[j],
                                    forall|j: int|
                                        index <= j < index + k ==> v@[j] == Some(
                                            colors@[j - index],
                                        ),
                                decreases 8 - k,
                            {
                                v.set(index as usize + k, Some(colors[k]));
                                k = k + 1;
                            }
                            proof {
                                assert(v@ =~= Seq::new(
                                    s0.len(),
                                    |j: int|
                                        if index <= j < index + 8 {
                                            Some(colors@[j - index])
                                        } else {
                                            s0[j]
                                        },
                                ));
                            }
                        },
                        None => {
                            proof {
                                assert(false);
                            }
                        },
                    }
                    Ok(())
                } else {
                    Err(BulbError::ZoneIndexOutOfRange)
                }
            },
            _ => Ok(()),
        }
    }
}

/// How one decoded message changes one device record at time `now`, and what
/// the dispatch reports for it: the registry's whole per-message update
/// table. `pre` is the record before the message, `post` the record after,
/// `r` what the dispatch returned.
pub open spec fn steps_to(
    pre: BulbInfo,
    post: BulbInfo,
    r: Result<(), BulbError>,
    msg: Message,
    now: u64,
) -> bool {
    match msg {
        Message::StateService { port, service_is_udp } => {
            &&& post == pre
            &&& if service_is_udp && port == pre.addr.port as u32 {
                r is Ok
            } else {
                r == Err::<(), BulbError>(BulbError::ServiceMismatch)
            }
        },
        Message::StateLabel { label } => {
            &&& post == (BulbInfo { name: pre.name.updated(label, now), ..pre })
            &&& r is Ok
        },
        Message::StateLocation { label } => {
            &&& post == (BulbInfo { location: pre.location.updated(label, now), ..pre })
            &&& r is Ok
        },
        Message::StateVersion { vendor, product } => {
            &&& post == pre.version_spec(vendor, product, product_multizone(vendor, product), now)
            &&& r is Ok
        },
        Message::StatePower { level } => {
            &&& post == (BulbInfo { power_level: pre.power_level.updated(level, now), ..pre })
            &&& r is Ok
        },
        Message::StateHostFirmware { version_major, version_minor } => {
            &&& post == (BulbInfo {
                host_firmware: pre.host_firmware.updated((version_major, version_minor), now),
                ..pre
            })
            &&& r is Ok
        },
        Message::StateWifiFirmware { version_major, version_minor } => {
            &&& post == (BulbInfo {
                wifi_firmware: pre.wifi_firmware.updated((version_major, version_minor), now),
                ..pre
            })
            &&& r is Ok
        },
        Message::LightState { color, power, label } => match pre.color {
            Color::Single(d) => {
                &&& post == (BulbInfo {
                    color: Color::Single(d.updated(color, now)),
                    power_level: pre.power_level.updated(power, now),
                    name: pre.name.updated(label, now),
                    ..pre
                })
                &&& r is Ok
            },
            _ => post == pre && r is Ok,
        },
        Message::StateZone { count, index, color } => match pre.color {
            Color::Multi(d) => {
                if index as int + 1 <= zone_seq(d, count).len() && index as int + 1 <= count as int {
                    &&& r is Ok
                    &&& post == (BulbInfo { color: post.color, ..pre })
                    &&& post.color matches Color::Multi(d2) && zone_write(
                        d,
                        d2,
                        count,
                        index,
                        seq![color],
                    )
                } else {
                    &&& post == pre
                    &&& r == Err::<(), BulbError>(BulbError::ZoneIndexOutOfRange)
                }
            },
            _ => post == pre && r is Ok,
        },
        Message::StateMultiZone { count, index, colors } => match pre.color {
            Color::Multi(d) => {
                if index as int + 8 <= zone_seq(d, count).len() && index as int + 8 <= count as int {
                    &&& r is Ok
                    &&& post == (BulbInfo { color: post.color, ..pre })
                    &&& post.color matches Color::Multi(d2) && zone_write(
                        d,
                        d2,
                        count,
                        index,
                        colors@,
                    )
                } else {
                    &&& post == pre
                    &&& r == Err::<(), BulbError>(BulbError::ZoneIndexOutOfRange)
                }
            },
            _ => post == pre && r is Ok,
        },
        Message::StateExtendedColorZones { zones_count, zone_index, colors_count, colors } => {
            &&& post == (BulbInfo {
                zones: pre.zones.updated(
                    Zones { zones_count, zone_index, colors_count, colors },
                    now,
                ),
                ..pre
            })
            &&& r is Ok
        },
        Message::Acknowledgement { seq } => {
            &&& post == (BulbInfo {
                options: BuildOptions { sequence: ((seq % 255) + 1) as u8, ..pre.options },
                ..pre
            })
            &&& r is Ok
        },
        _ => post == pre && r is Ok,
    }
}

/// The query a stale slot contributes to a refresh sweep; a fresh slot
/// contributes none.
pub open spec fn opt_query(stale: bool, m: Message) -> Seq<Message> {
    if stale {
        seq![m]
    } else {
        Seq::empty()
    }
}

/// The query the color state contributes: none while the capability is
/// unknown, since the right query differs by capability.
pub open spec fn color_query(c: Color, now: u64) -> Seq<Message> {
    match c {
        Color::Unknown => Seq::empty(),
        Color::Single(d) => opt_query(d.is_stale(now), d.refresh_msg),
        Color::Multi(d) => opt_query(d.is_stale(now), d.refresh_msg),
    }
}

/// What the capability lookup says of a record's model: `None` until a
/// version reply supplied one, or when the product table does not know it.
pub open spec fn caps_of(b: BulbInfo) -> Option<bool> {
    match b.model.data {
        Some(m) => product_multizone(m.0, m.1),
        None => None,
    }
}

/// Every query a refresh sweep sends for one record at time `now`, in the
/// fixed priority order: name, model, location, host firmware, wifi
/// firmware, power, color by state, and — only for a known multizone
/// product — the zone snapshot.
pub open spec fn queries_spec(b: BulbInfo, multizone: Option<bool>, now: u64) -> Seq<Message> {
    opt_query(b.name.is_stale(now), b.name.refresh_msg) + opt_query(
        b.model.is_stale(now),
        b.model.refresh_msg,
    ) + opt_query(b.location.is_stale(now), b.location.refresh_msg) + opt_query(
        b.host_firmware.is_stale(now),
        b.host_firmware.refresh_msg,
    ) + opt_query(b.wifi_firmware.is_stale(now), b.wifi_firmware.refresh_msg) + opt_query(
        b.power_level.is_stale(now),
        b.power_level.refresh_msg,
    ) + color_query(b.color, now) + (if multizone == Some(true) {
        opt_query(b.zones.is_stale(now), b.zones.refresh_msg)
    } else {
        Seq::empty()
    })
}

impl BulbInfo {
    /// The queries a refresh sweep sends for this record when the capability
    /// lookup answered `multizone`.
    #[verifier::rlimit(50)]
    pub fn query_plan(&self, multizone: Option<bool>, now: u64) -> (r: Vec<Message>)
        requires
            self.wf(),
        ensures
            r@ == queries_spec(*self, multizone, now),
    {
        let mut r: Vec<Message> = Vec::new();
        let ghost c1 = opt_query(self.name.is_stale(now), self.name.refresh_msg);
        if self.name.needs_refresh(now) {
            r.push(self.name.refresh_msg.clone());
        }
        proof {
            assert(r@ =~= c1);
        }
        let ghost c2 = c1 + opt_query(self.model.is_stale(now), self.model.refresh_msg);
        if self.model.needs_refresh(now) {
            r.push(self.model.refresh_msg.clone());
        }
        proof {
            assert(r@ =~= c2);
        }
        let ghost c3 = c2 + opt_query(self.location.is_stale(now), self.location.refresh_msg);
        if self.location.needs_refresh(now) {
            r.push(self.location.refresh_msg.clone());
        }
        proof {
            assert(r@ =~= c3);
        }
        let ghost c4 = c3 + opt_query(
            self.host_firmware.is_stale(now),
            self.host_firmware.refresh_msg,
        );
        if self.host_firmware.needs_refresh(now) {
            r.push(self.host_firmware.refresh_msg.clone());
        }
        proof {
            assert(r@ =~= c4);
        }
        let ghost c5 = c4 + opt_query(
            self.wifi_firmware.is_stale(now),
            self.wifi_firmware.refresh_msg,
        );
        if self.wifi_firmware.needs_refresh(now) {
            r.push(self.wifi_firmware.refresh_msg.clone());
        }
        proof {
            assert(r@ =~= c5);
        }
        let ghost c6 = c5 + opt_query(self.power_level.is_stale(now), self.power_level.refresh_msg);
        if self.power_level.needs_refresh(now) {
            r.push(self.power_level.refresh_msg.clone());
        }
        proof {
            assert(r@ =~= c6);
        }
        let ghost c7 = c6 + color_query(self.color, now);
        match &self.color {
            Color::Unknown => {},
            Color::Single(d) => {
                if d.needs_refresh(now) {
                    r.push(d.refresh_msg.clone());
                }
            },
            Color::Multi(d) => {
                if d.needs_refresh(now) {
                    r.push(d.refresh_msg.clone());
                }
            },
        }
        proof {
            assert(r@ =~= c7);
        }
        let ghost c8 = c7 + (if multizone == Some(true) {
            opt_query(self.zones.is_stale(now), self.zones.refresh_msg)
        } else {
            Seq::empty()
        });
        let wants_zones = match multizone {
            Some(true) => true,
            _ => false,
        };
        if wants_zones && self.zones.needs_refresh(now) {
            r.push(self.zones.refresh_msg.clone());
        }
        proof {
            assert(r@ =~= c8);
            assert(c8 == queries_spec(*self, multizone, now));
        }
        r
    }

    /// The queries a refresh sweep sends for this record, after asking the
    /// product table about its model.
    pub fn query_for_missing_info(&self, now: u64) -> (r: Vec<Message>)
        requires
            self.wf(),
        ensures
            r@ == queries_spec(*self, caps_of(*self), now),
    {
        let caps: Option<bool> = match self.model.as_ref() {
            Some(m) => crate::products::lookup_multizone(m.0, m.1),
            None => None,
        };
        self.query_plan(caps, now)
    }

    /// The message that toggles power: standby when the last known level was
    /// positive, full power when it was zero or is still unknown.
    pub fn toggle_bulb(&self) -> (m: Message)
        ensures
            m == (match self.power_level.data {
                Some(level) => if level > 0 {
                    Message::SetPower { level: PowerLevel::Standby }
                } else {
                    Message::SetPower { level: PowerLevel::Enabled }
                },
                None => Message::SetPower { level: PowerLevel::Enabled },
            }),
    {
        match self.power_level.as_ref() {
            Some(level) => {
                if *level > 0 {
                    Message::SetPower { level: PowerLevel::Standby }
                } else {
                    Message::SetPower { level: PowerLevel::Enabled }
                }
            },
            None => Message::SetPower { level: PowerLevel::Enabled },
        }
    }

    /// The message that sets the given power level.
    pub fn set_power(&self, level: PowerLevel) -> (m: Message)
        ensures
            m == (Message::SetPower { level }),
    {
        Message::SetPower { level }
    }

    /// The message that fades to the given power level over `duration`
    /// milliseconds.
    pub fn set_power_duration(&self, level: u16, duration: u32) -> (m: Message)
        ensures
            m == (Message::LightSetPower { level, duration }),
    {
        Message::LightSetPower { level, duration }
    }

    /// The message that fades the whole light to `color` over `duration`
    /// milliseconds.
    pub fn set_bulb_color(&self, color: Hsbk, duration: u32) -> (m: Message)
        ensures
            m == (Message::LightSetColor { color, duration }),
    {
        Message::LightSetColor { color, duration }
    }

    /// The message that overwrites the device's whole zone array, sized by
    /// the last reported zone window; not available until a zone reply
    /// arrived.
    pub fn set_strip_array(&self, colors: Vec<Hsbk>, duration: u32) -> (r: Result<
        Message,
        BulbError,
    >)
        requires
            colors@.len() == ZONE_CAPACITY,
        ensures
            match self.zones.data {
                Some(z) => r matches Ok(m) && (m matches Message::SetExtendedColorZones {
                    duration: d2,
                    zone_index: z2,
                    colors_count: c2,
                    colors: v2,
                } && d2 == duration && z2 == 0 && c2 == z.colors_count && v2@ == colors@),
                None => r == Err::<Message, BulbError>(BulbError::NotYetAvailable),
            },
    {
        match self.zones.as_ref() {
            Some(z) => Ok(
                Message::SetExtendedColorZones {
                    duration,
                    zone_index: 0,
                    colors_count: z.colors_count,
                    colors,
                },
            ),
            None => Err(BulbError::NotYetAvailable),
        }
    }

    /// The last reported zone color array; not yet available until a zone
    /// reply arrived.
    pub fn get_colors(&self) -> (r: Result<Vec<Hsbk>, BulbError>)
        ensures
            match self.zones.data {
                Some(z) => r matches Ok(v) && v@ == z.colors@,
                None => r == Err::<Vec<Hsbk>, BulbError>(BulbError::NotYetAvailable),
            },
    {
        match self.zones.as_ref() {
            Some(z) => Ok(crate::messages::copy_colors(&z.colors)),
            None => Err(BulbError::NotYetAvailable),
        }
    }

    /// The device's reported total zone count; not yet available until a
    /// zone reply arrived.
    pub fn get_length(&self) -> (r: Result<u32, BulbError>)
        ensures
            match self.zones.data {
                Some(z) => r == Ok::<u32, BulbError>(z.zones_count as u32),
                None => r == Err::<u32, BulbError>(BulbError::NotYetAvailable),
            },
    {
        match self.zones.as_ref() {
            Some(z) => Ok(z.zones_count as u32),
            None => Err(BulbError::NotYetAvailable),
        }
    }
}

/// The color state machine never leaves a committed state: once a record is
/// known single-zone or multizone, no message changes which of the two it
/// is, so every later color-bearing message is interpreted under that one
/// capability.
pub proof fn lemma_color_transitions_once(
    pre: BulbInfo,
    post: BulbInfo,
    r: Result<(), BulbError>,
    msg: Message,
    now: u64,
)
    requires
        steps_to(pre, post, r, msg, now),
        pre.color.kind() != ColorKind::Unknown,
    ensures
        post.color.kind() == pre.color.kind(),
        pre.color is Multi && msg is LightState ==> post == pre,
{
}

/// An eight-zone batch whose window runs past the total the report itself
/// names is rejected whole: the record — its prior zone data included — is
/// left exactly as it was, and the inconsistency is reported instead of
/// crashing. The same holds of a window past the held zone array.
pub proof fn lemma_overlong_zone_batch_rejected(
    pre: BulbInfo,
    post: BulbInfo,
    r: Result<(), BulbError>,
    count: u8,
    index: u8,
    colors: [Hsbk; 8],
    now: u64,
)
    requires
        steps_to(pre, post, r, Message::StateMultiZone { count, index, colors }, now),
        pre.color is Multi,
        index as int + 7 >= count as int || (pre.color matches Color::Multi(d) && index as int + 8
            > zone_seq(d, count).len()),
    ensures
        post == pre,
        r == Err::<(), BulbError>(BulbError::ZoneIndexOutOfRange),
{
}

/// An acknowledgment always leaves the next outbound sequence in 1..=255:
/// acknowledging sequence 254 sets it to 255, acknowledging 255 wraps to 1.
pub proof fn lemma_ack_sequence_range(
    pre: BulbInfo,
    post: BulbInfo,
    r: Result<(), BulbError>,
    seq_no: u8,
    now: u64,
)
    requires
        steps_to(pre, post, r, Message::Acknowledgement { seq: seq_no }, now),
    ensures
        post.options.sequence == (seq_no % 255) + 1,
        1 <= post.options.sequence <= 255,
{
}

/// A zone array of `count` entries, none of them known yet.
fn unknown_zones(count: u8) -> (v: Vec<Option<Hsbk>>)
    ensures
        v@ == Seq::new(count as nat, |i: int| None::<Hsbk>),
{
    let mut v: Vec<Option<Hsbk>> = Vec::new();
    let mut i: usize = 0;
    while i < count as usize
        invariant
            i <= count as usize,
            v@ == Seq::new(i as nat, |j: int| None::<Hsbk>),
        decreases count as usize - i,
    {
        v.push(None);
        proof {
            assert(v@ =~= Seq::new((i + 1) as nat, |j: int| None::<Hsbk>));
        }
        i = i + 1;
    }
    proof {
        assert(v@ =~= Seq::new(count as nat, |j: int| None::<Hsbk>));
    }
    v
}

} // verus!
