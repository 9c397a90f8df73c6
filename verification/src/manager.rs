use vstd::prelude::*;
use vstd::pervasive::VecAdditionalExecFns;

use crate::address::{check_loopback_v4, is_loopback_v4, Addr, IfaceV4, Ip, DEVICE_PORT};
use crate::bulb::{caps_of, queries_spec, steps_to, BulbInfo, Color};
use crate::errors::BulbError;
use crate::messages::{BuildOptions, Message};

verus! {

/// The session source tag stamped on every outbound message, echoed back by
/// devices so replies can be told from other clients' traffic.
pub const CLIENT_SOURCE: u32 = 0x72757374;

/// The registry a sequence of keyed records denotes: later entries win,
/// though under `unique_keys` no key occurs twice.
pub open spec fn map_of(s: Seq<(u64, BulbInfo)>) -> Map<u64, BulbInfo>
    decreases s.len(),
{
    if s.len() == 0 {
        Map::<u64, BulbInfo>::empty()
    } else {
        map_of(s.drop_last()).insert(s.last().0, s.last().1)
    }
}

/// No device identity occurs twice among the entries.
pub open spec fn unique_keys(s: Seq<(u64, BulbInfo)>) -> bool {
    forall|i: int, j: int|
        0 <= i < j < s.len() ==> (#[trigger] s[i]).0 != (#[trigger] s[j]).0
}

proof fn lemma_unique_drop_last(s: Seq<(u64, BulbInfo)>)
    requires
        unique_keys(s),
        s.len() > 0,
    ensures
        unique_keys(s.drop_last()),
{
    assert forall|i: int, j: int|
        0 <= i < j < s.drop_last().len() implies (#[trigger] s.drop_last()[i]).0 != (
    #[trigger] s.drop_last()[j]).0 by {
        assert(s.drop_last()[i] == s[i]);
        assert(s.drop_last()[j] == s[j]);
    }
}

/// A key is in the registry map exactly when some entry carries it.
pub proof fn lemma_map_of_contains(s: Seq<(u64, BulbInfo)>, k: u64)
    ensures
        map_of(s).contains_key(k) <==> exists|i: int| 0 <= i < s.len() && (#[trigger] s[i]).0 == k,
    decreases s.len(),
{
    if s.len() > 0 {
        lemma_map_of_contains(s.drop_last(), k);
        if s.last().0 == k {
            assert((s[s.len() - 1]).0 == k);
        } else {
            if exists|i: int| 0 <= i < s.len() && (#[trigger] s[i]).0 == k {
                let i = choose|i: int| 0 <= i < s.len() && (#[trigger] s[i]).0 == k;
                assert(s.drop_last()[i] == s[i]);
            }
            if exists|i: int| 0 <= i < s.drop_last().len() && (#[trigger] s.drop_last()[i]).0
                == k {
                let i = choose|i: int|
                    0 <= i < s.drop_last().len() && (#[trigger] s.drop_last()[i]).0 == k;
                assert(s[i] == s.drop_last()[i]);
            }
        }
    }
}

/// Under unique keys, the map sends an entry's key to that entry's record.
pub proof fn lemma_map_of_get(s: Seq<(u64, BulbInfo)>, k: u64, i: int)
    requires
        unique_keys(s),
        0 <= i < s.len(),
        (s[i]).0 == k,
    ensures
        map_of(s).contains_key(k),
        map_of(s)[k] == (s[i]).1,
    decreases s.len(),
{
    if i == s.len() - 1 {
    } else {
        lemma_unique_drop_last(s);
        assert(s.drop_last()[i] == s[i]);
        lemma_map_of_get(s.drop_last(), k, i);
        assert((s.last()).0 != k);
    }
}

/// Overwriting the entry that carries `k` is, on the map, one insert.
pub proof fn lemma_map_of_update(s: Seq<(u64, BulbInfo)>, i: int, k: u64, b: BulbInfo)
    requires
        unique_keys(s),
        0 <= i < s.len(),
        (s[i]).0 == k,
    ensures
        map_of(s.update(i, (k, b))) == map_of(s).insert(k, b),
    decreases s.len(),
{
    let s2 = s.update(i, (k, b));
    if i == s.len() - 1 {
        assert(s2.drop_last() =~= s.drop_last());
        assert(s2.last() == (k, b));
        assert(map_of(s.drop_last()).insert(s.last().0, s.last().1).insert(k, b) =~= map_of(
            s.drop_last(),
        ).insert(k, b));
    } else {
        lemma_unique_drop_last(s);
        assert(s.drop_last()[i] == s[i]);
        lemma_map_of_update(s.drop_last(), i, k, b);
        assert(s2.drop_last() =~= s.drop_last().update(i, (k, b)));
        assert(s2.last() == s.last());
        assert((s.last()).0 != k);
        assert(map_of(s.drop_last()).insert(k, b).insert(s.last().0, s.last().1) =~= map_of(
            s.drop_last(),
        ).insert(s.last().0, s.last().1).insert(k, b));
    }
}

/// Appending an entry is, on the map, one insert.
pub proof fn lemma_map_of_push(s: Seq<(u64, BulbInfo)>, k: u64, b: BulbInfo)
    ensures
        map_of(s.push((k, b))) == map_of(s).insert(k, b),
{
    assert(s.push((k, b)).drop_last() =~= s);
    assert(s.push((k, b)).last() == (k, b));
}

/// A registry made from finitely many entries has a finite key set.
pub proof fn lemma_map_of_finite(s: Seq<(u64, BulbInfo)>)
    ensures
        map_of(s).dom().finite(),
    decreases s.len(),
{
    if s.len() > 0 {
        lemma_map_of_finite(s.drop_last());
    }
}

/// The device registry and what a refresh sweep needs around it: every
/// record keyed by device identity, the time of the last discovery
/// broadcast, and the session source tag new records are stamped with.
#[derive(Debug)]
pub struct Manager {
    pub bulbs: Vec<(u64, BulbInfo)>,
    pub last_discovery: u64,
    pub source: u32,
}

/// Every query one record contributes to a refresh sweep, addressed to that
/// record's device.
pub open spec fn bulb_sends(b: BulbInfo, now: u64) -> Seq<(BuildOptions, Addr, Message)> {
    queries_spec(b, caps_of(b), now).map_values(|m: Message| (b.options, b.addr, m))
}

/// Every query a refresh sweep over the entries `s` sends, in registry
/// order.
pub open spec fn refresh_sends(s: Seq<(u64, BulbInfo)>, now: u64) -> Seq<(BuildOptions, Addr, Message)>
    decreases s.len(),
{
    if s.len() == 0 {
        Seq::<(BuildOptions, Addr, Message)>::empty()
    } else {
        refresh_sends(s.drop_last(), now) + bulb_sends(s.last().1, now)
    }
}

proof fn lemma_refresh_sends_take_step(s: Seq<(u64, BulbInfo)>, now: u64, i: int)
    requires
        0 <= i < s.len(),
    ensures
        refresh_sends(s.take(i + 1), now) == refresh_sends(s.take(i), now) + bulb_sends(
            (s[i]).1,
            now,
        ),
{
    assert(s.take(i + 1).drop_last() =~= s.take(i));
    assert(s.take(i + 1).last() == s[i]);
}

/// The broadcast targets a discovery sweep sends to: the broadcast address,
/// on the well-known device port, of every non-loopback IPv4 interface that
/// has one.
pub open spec fn discover_targets(ifs: Seq<IfaceV4>) -> Seq<Addr>
    decreases ifs.len(),
{
    if ifs.len() == 0 {
        Seq::<Addr>::empty()
    } else {
        discover_targets(ifs.drop_last()) + (match ifs.last().broadcast {
            Some(b) => if is_loopback_v4(ifs.last().ip) {
                Seq::<Addr>::empty()
            } else {
                seq![Addr { ip: Ip::V4(b), port: DEVICE_PORT }]
            },
            None => Seq::<Addr>::empty(),
        })
    }
}

proof fn lemma_discover_targets_take_step(ifs: Seq<IfaceV4>, i: int)
    requires
        0 <= i < ifs.len(),
    ensures
        discover_targets(ifs.take(i + 1)) == discover_targets(ifs.take(i)) + (match (
        ifs[i]).broadcast {
            Some(b) => if is_loopback_v4((ifs[i]).ip) {
                Seq::<Addr>::empty()
            } else {
                seq![Addr { ip: Ip::V4(b), port: DEVICE_PORT }]
            },
            None => Seq::<Addr>::empty(),
        }),
{
    assert(ifs.take(i + 1).drop_last() =~= ifs.take(i));
    assert(ifs.take(i + 1).last() == ifs[i]);
}

impl Manager {
    /// The registry as a mapping from device identity to record.
    pub open spec fn bulbs_map(self) -> Map<u64, BulbInfo> {
        map_of(self.bulbs@)
    }

    /// Internal consistency: identities are unique and every record is
    /// well-formed.
    pub open spec fn wf(self) -> bool {
        &&& unique_keys(self.bulbs@)
        &&& forall|i: int|
            0 <= i < self.bulbs@.len() ==> (#[trigger] self.bulbs@[i]).1.wf()
    }

    /// A manager with an empty registry, created at time `now`.
    pub fn new(now: u64) -> (m: Manager)
        ensures
            m.bulbs@ == Seq::<(u64, BulbInfo)>::empty(),
            m.bulbs_map() == Map::<u64, BulbInfo>::empty(),
            m.last_discovery == now,
            m.source == CLIENT_SOURCE,
            m.wf(),
    {
        Manager { bulbs: Vec::new(), last_discovery: now, source: CLIENT_SOURCE }
    }

    fn find_index(&self, target: u64) -> (r: Option<usize>)
        ensures
            r matches Some(i) ==> i < self.bulbs@.len() && (self.bulbs@[i as int]).0 == target,
            r is None ==> forall|j: int|
                0 <= j < self.bulbs@.len() ==> (#[trigger] self.bulbs@[j]).0 != target,
    {
        let mut i: usize = 0;
        while i < self.bulbs.len()
            invariant
                i <= self.bulbs@.len(),
                forall|j: int| 0 <= j < i ==> (#[trigger] self.bulbs@[j]).0 != target,
            decreases self.bulbs@.len() - i,
        {
            if self.bulbs[i].0 == target {
                return Some(i);
            }
            i = i + 1;
        }
        None
    }

    /// Fold one decoded message into one device record: the per-message
    /// update table the receiver loop applies under the registry lock.
    pub fn handle_message(msg: Message, bulb: &mut BulbInfo, now: u64) -> (r: Result<
        (),
        BulbError,
    >)
        requires
            old(bulb).wf(),
            msg.wf(),
        ensures
            final(bulb).wf(),
            steps_to(*old(bulb), *final(bulb), r, msg, now),
    {
        match msg {
            Message::StateService { port, service_is_udp } => {
                if service_is_udp && port == bulb.addr.port as u32 {
                    Ok(())
                } else {
                    Err(BulbError::ServiceMismatch)
                }
            },
            Message::StateLabel { label } => {
                bulb.name.update(label, now);
                Ok(())
            },
            Message::StateLocation { label } => {
                bulb.location.update(label, now);
                Ok(())
            },
            Message::StateVersion { vendor, product } => {
                let caps = crate::products::lookup_multizone(vendor, product);
                bulb.apply_version(vendor, product, caps, now);
                Ok(())
            },
            Message::StatePower { level } => {
                bulb.power_level.update(level, now);
                Ok(())
            },
            Message::StateHostFirmware { version_major, version_minor } => {
                bulb.host_firmware.update((version_major, version_minor), now);
                Ok(())
            },
            Message::StateWifiFirmware { version_major, version_minor } => {
                bulb.wifi_firmware.update((version_major, version_minor), now);
                Ok(())
            },
            Message::LightState { color, power, label } => {
                let is_single = match &bulb.color {
                    Color::Single(_) => true,
                    _ => false,
                };
                if is_single {
                    match &mut bulb.color {
                        Color::Single(d) => d.update(color, now),
                        _ => {},
                    }
                    bulb.power_level.update(power, now);
                    bulb.name.update(label, now);
                }
                Ok(())
            },
            Message::StateZone { count, index, color } => bulb.apply_single_zone(
                count,
                index,
                color,
            ),
            Message::StateMultiZone { count, index, colors } => bulb.apply_zone_batch(
                count,
                index,
                &colors,
            ),
            Message::StateExtendedColorZones { zones_count, zone_index, colors_count, colors } => {
                bulb.zones.update(
                    crate::bulb::Zones { zones_count, zone_index, colors_count, colors },
                    now,
                );
                Ok(())
            },
            Message::Acknowledgement { seq } => {
                bulb.options.sequence = (seq % 255) + 1;
                Ok(())
            },
            _ => Ok(()),
        }
    }

    /// Fold one datagram into the registry: look the sender up by identity,
    /// creating its record on first contact, refresh its address and the
    /// time it was last seen, then apply the message's update rule. A
    /// datagram whose identity is zero names no device and is dropped.
    pub fn apply_datagram(&mut self, target: u64, addr: Addr, msg: Message, now: u64) -> (r:
        Result<(), BulbError>)
        requires
            old(self).wf(),
            msg.wf(),
        ensures
            final(self).wf(),
            final(self).source == old(self).source,
            final(self).last_discovery == old(self).last_discovery,
            target == 0 ==> *final(self) == *old(self) && r == Err::<(), BulbError>(
                BulbError::ZeroIdentity,
            ),
            target != 0 ==> {
                let pre0 = if old(self).bulbs_map().contains_key(target) {
                    old(self).bulbs_map()[target].seen_spec(addr, now)
                } else {
                    BulbInfo::new_spec(old(self).source, target, addr, now)
                };
                &&& final(self).bulbs_map() == old(self).bulbs_map().insert(
                    target,
                    final(self).bulbs_map()[target],
                )
                &&& steps_to(pre0, final(self).bulbs_map()[target], r, msg, now)
            },
    {
        if target == 0 {
            return Err(BulbError::ZeroIdentity);
        }
        proof {
            lemma_map_of_contains(self.bulbs@, target);
        }
        match self.find_index(target) {
            Some(i) => {
                proof {
                    lemma_map_of_get(self.bulbs@, target, i as int);
                }
                let mut entry: (u64, BulbInfo) = (
                    target,
                    BulbInfo::new(self.source, target, addr, now),
                );
                self.bulbs.set_and_swap(i, &mut entry);
                entry.1.update(addr, now);
                let r = Self::handle_message(msg, &mut entry.1, now);
                self.bulbs.set_and_swap(i, &mut entry);
                proof {
                    assert(self.bulbs@ =~= old(self).bulbs@.update(
                        i as int,
                        self.bulbs@[i as int],
                    ));
                    assert((self.bulbs@[i as int]).0 == target);
                    lemma_map_of_update(
                        old(self).bulbs@,
                        i as int,
                        target,
                        (self.bulbs@[i as int]).1,
                    );
                    lemma_map_of_get(self.bulbs@, target, i as int);
                }
                r
            },
            None => {
                let mut b = BulbInfo::new(self.source, target, addr, now);
                let r = Self::handle_message(msg, &mut b, now);
                self.bulbs.push((target, b));
                proof {
                    lemma_map_of_push(old(self).bulbs@, target, b);
                    assert(unique_keys(self.bulbs@));
                    lemma_map_of_get(self.bulbs@, target, self.bulbs@.len() - 1);
                }
                r
            },
        }
    }

    /// Every query a refresh sweep sends right now, paired with the address
    /// it goes to: for each record in registry order, a query for each
    /// stale slot, in the fixed priority order.
    pub fn refresh(&self, now: u64) -> (sends: Vec<(BuildOptions, Addr, Message)>)
        requires
            self.wf(),
        ensures
            sends@ == refresh_sends(self.bulbs@, now),
    {
        let mut sends: Vec<(BuildOptions, Addr, Message)> = Vec::new();
        let mut i: usize = 0;
        while i < self.bulbs.len()
            invariant
                self.wf(),
                i <= self.bulbs@.len(),
                sends@ == refresh_sends(self.bulbs@.take(i as int), now),
            decreases self.bulbs@.len() - i,
        {
            let b = &self.bulbs[i].1;
            let opts = b.options;
            let addr = b.addr;
            let mut msgs = b.query_for_missing_info(now);
            let ghost queries = msgs@;
            let ghost pairs = bulb_sends(*b, now);
            let ghost mut j: int = 0;
            while msgs.len() > 0
                invariant
                    0 <= j <= queries.len(),
                    msgs@ == queries.skip(j),
                    pairs == queries.map_values(|m: Message| (opts, addr, m)),
                    pairs == bulb_sends(self.bulbs@[i as int].1, now),
                    i < self.bulbs@.len(),
                    sends@ == refresh_sends(self.bulbs@.take(i as int), now) + pairs.take(j),
                decreases msgs@.len(),
            {
                let m = msgs.remove(0);
                sends.push((opts, addr, m));
                proof {
                    assert(m == queries[j]);
                    assert(pairs[j] == (opts, addr, queries[j]));
                    assert((refresh_sends(self.bulbs@.take(i as int), now) + pairs.take(j)).push(
                        pairs[j],
                    ) =~= refresh_sends(self.bulbs@.take(i as int), now) + pairs.take(j + 1));
                    assert(queries.skip(j).remove(0) =~= queries.skip(j + 1));
                    j = j + 1;
                }
            }
            proof {
                assert(j == queries.len());
                assert(pairs.take(pairs.len() as int) =~= pairs);
                lemma_refresh_sends_take_step(self.bulbs@, now, i as int);
            }
            i = i + 1;
        }
        proof {
            assert(self.bulbs@.take(self.bulbs@.len() as int) =~= self.bulbs@);
        }
        sends
    }

    /// The options a discovery broadcast is framed with: addressed to every
    /// device, nothing required back beyond the devices' own replies.
    pub fn discovery_options(&self) -> (o: BuildOptions)
        ensures
            o == (BuildOptions {
                target: None,
                ack_required: false,
                res_required: false,
                sequence: 0,
                source: self.source,
            }),
    {
        BuildOptions {
            target: None,
            ack_required: false,
            res_required: false,
            sequence: 0,
            source: self.source,
        }
    }

    /// One discovery sweep: the capability query goes to the broadcast
    /// address of every non-loopback IPv4 interface that has one, and the
    /// time of this discovery is recorded.
    pub fn discover(&mut self, interfaces: &Vec<IfaceV4>, now: u64) -> (targets: Vec<Addr>)
        ensures
            targets@ == discover_targets(interfaces@),
            final(self).bulbs == old(self).bulbs,
            final(self).source == old(self).source,
            final(self).last_discovery == now,
    {
        let mut targets: Vec<Addr> = Vec::new();
        let mut i: usize = 0;
        while i < interfaces.len()
            invariant
                i <= interfaces@.len(),
                targets@ == discover_targets(interfaces@.take(i as int)),
            decreases interfaces@.len() - i,
        {
            let iface = &interfaces[i];
            match &iface.broadcast {
                Some(b) => {
                    if !check_loopback_v4(&iface.ip) {
                        targets.push(Addr { ip: Ip::V4(*b), port: DEVICE_PORT });
                    }
                },
                None => {},
            }
            proof {
                lemma_discover_targets_take_step(interfaces@, i as int);
                assert(targets@ =~= discover_targets(interfaces@.take(i as int + 1)));
            }
            i = i + 1;
        }
        proof {
            assert(interfaces@.take(interfaces@.len() as int) =~= interfaces@);
        }
        self.last_discovery = now;
        targets
    }

    /// The capability query for one known address, sent directly instead of
    /// broadcast; the registry is untouched until the device replies.
    pub fn add_bulb(&self, addr: Addr) -> (r: (BuildOptions, Message, Addr))
        ensures
            r.0 == self.discovery_options_spec(),
            r.1 == Message::GetService,
            r.2 == addr,
    {
        (self.discovery_options(), Message::GetService, addr)
    }

    /// What `discovery_options` returns.
    pub open spec fn discovery_options_spec(self) -> BuildOptions {
        BuildOptions {
            target: None,
            ack_required: false,
            res_required: false,
            sequence: 0,
            source: self.source,
        }
    }
}

/// The registry keeps exactly one record per device identity: the first
/// datagram from an identity grows the key set by that one identity, and
/// any later datagram from it leaves the key set as it is.
pub proof fn lemma_one_record_per_identity(
    pre: Map<u64, BulbInfo>,
    post: Map<u64, BulbInfo>,
    post2: Map<u64, BulbInfo>,
    t: u64,
    b1: BulbInfo,
    b2: BulbInfo,
)
    requires
        pre.dom().finite(),
        !pre.contains_key(t),
        post == pre.insert(t, b1),
        post2 == post.insert(t, b2),
    ensures
        post.dom() =~= pre.dom().insert(t),
        post.dom().len() == pre.dom().len() + 1,
        post2.dom() =~= post.dom(),
{
    assert(post.dom() =~= pre.dom().insert(t));
    vstd::set::axiom_set_insert_len(pre.dom(), t);
    assert(post2.dom() =~= post.dom());
}

} // verus!
