//! Device discovery: the registry's devices that meet given criteria,
//! ordered by the declared device types first and by position second.
//!
//! The returned list is ordered by the index of each device's type in the
//! `device_types` the session was created with; devices of equal type are
//! further ordered by position. Devices of equal type and position stay
//! together in an order the registry chose, which is all the native
//! framework promises.

use vstd::prelude::*;
use vstd::multiset::Multiset;
use vstd::seq_lib::group_to_multiset_ensures;

use crate::av::capture_device::{
    is_system_registry, media_among, position_rank, system_devices, Device, Position, Type,
};
use crate::av::media_format::MediaType;

verus! {

broadcast use group_to_multiset_ensures;

/// The index of the first occurrence of a type in the declared list, or the
/// list's length when it does not occur.
pub open spec fn type_index(types: Seq<Type>, t: Type) -> int
    decreases types.len(),
{
    if types.len() == 0 {
        0
    } else if types[0] == t {
        0
    } else {
        1 + type_index(types.drop_first(), t)
    }
}

/// The discovery order: by the type's index in the declared list first, by
/// position rank second.
pub open spec fn discovery_le(types: Seq<Type>, a: Device, b: Device) -> bool {
    let ia = type_index(types, a.device_type_field);
    let ib = type_index(types, b.device_type_field);
    ia < ib || (ia == ib && position_rank(a.position_field) <= position_rank(b.position_field))
}

/// A list is in discovery order when every earlier element precedes (or
/// ties with) every later one.
pub open spec fn sorted_by_discovery(types: Seq<Type>, s: Seq<Device>) -> bool {
    forall|i: int, j: int| 0 <= i < j < s.len() ==> discovery_le(types, s[i], s[j])
}

/// Whether a device meets the discovery criteria: its type is one of the
/// declared ones, it carries the requested media type (if one was
/// requested), and it sits at the requested position (unspecified matches
/// any).
pub open spec fn matches_discovery(
    d: Device,
    types: Seq<Type>,
    media_type: Option<MediaType>,
    position: Position,
) -> bool {
    &&& types.contains(d.device_type_field)
    &&& media_among(media_type, d.media_types@)
    &&& (position == Position::Unspecified || d.position_field == position)
}

/// The devices of a list that meet the discovery criteria, in list order.
pub open spec fn matching_devices(
    devs: Seq<Device>,
    types: Seq<Type>,
    media_type: Option<MediaType>,
    position: Position,
) -> Seq<Device>
    decreases devs.len(),
{
    if devs.len() == 0 {
        Seq::empty()
    } else {
        let init = matching_devices(devs.drop_last(), types, media_type, position);
        if matches_discovery(devs.last(), types, media_type, position) {
            init.push(devs.last())
        } else {
            init
        }
    }
}

/// Every device the filter keeps meets the criteria.
pub proof fn lemma_matching_devices_sound(
    devs: Seq<Device>,
    types: Seq<Type>,
    media_type: Option<MediaType>,
    position: Position,
)
    ensures
        forall|i: int|
            0 <= i < matching_devices(devs, types, media_type, position).len()
                ==> matches_discovery(
                #[trigger] matching_devices(devs, types, media_type, position)[i],
                types,
                media_type,
                position,
            ),
    decreases devs.len(),
{
    if devs.len() > 0 {
        lemma_matching_devices_sound(devs.drop_last(), types, media_type, position);
        let init = matching_devices(devs.drop_last(), types, media_type, position);
        let whole = matching_devices(devs, types, media_type, position);
        if matches_discovery(devs.last(), types, media_type, position) {
            assert(whole == init.push(devs.last()));
            assert forall|i: int| 0 <= i < whole.len() implies matches_discovery(
                whole[i],
                types,
                media_type,
                position,
            ) by {
                if i < init.len() {
                    assert(whole[i] == init[i]);
                } else {
                    assert(whole[i] == devs.last());
                }
            }
        } else {
            assert(whole == init);
        }
    }
}

impl Device {
    /// The index of this device's type in the declared list, scanning from
    /// position `i`.
    fn type_index_from(types: &Vec<Type>, t: Type, i: usize) -> (r: usize)
        requires
            i <= types@.len(),
        ensures
            r == i + type_index(types@.skip(i as int), t),
            r <= types@.len(),
        decreases types@.len() - i,
    {
        if i == types.len() {
            proof {
                assert(types@.skip(i as int) =~= Seq::<Type>::empty());
            }
            i
        } else if types[i] == t {
            proof {
                assert(types@.skip(i as int)[0] == t);
            }
            i
        } else {
            proof {
                assert(types@.skip(i as int).drop_first() =~= types@.skip(i as int + 1));
                assert(types@.skip(i as int)[0] == types@[i as int]);
            }
            Self::type_index_from(types, t, i + 1)
        }
    }

    /// The exec form of [`position_rank`].
    fn position_rank_of(p: Position) -> (r: u8)
        ensures
            r as int == position_rank(p),
    {
        match p {
            Position::Unspecified => 0,
            Position::Back => 1,
            Position::Front => 2,
        }
    }

    /// Whether `a` precedes or ties with `b` in discovery order.
    fn discovery_precedes(types: &Vec<Type>, a: &Device, b: &Device) -> (r: bool)
        ensures
            r == discovery_le(types@, *a, *b),
    {
        proof {
            assert(types@.skip(0) =~= types@);
        }
        let ia = Self::type_index_from(types, a.device_type_field, 0);
        let ib = Self::type_index_from(types, b.device_type_field, 0);
        if ia < ib {
            true
        } else if ia == ib {
            Self::position_rank_of(a.position_field) <= Self::position_rank_of(b.position_field)
        } else {
            false
        }
    }

    /// Keep, in order, the devices of a list that meet the criteria.
    #[verifier::loop_isolation(false)]
    fn filter_discovery(
        mut devices: Vec<Device>,
        device_types: &Vec<Type>,
        media_type: Option<&MediaType>,
        position: Position,
    ) -> (r: Vec<Device>)
        ensures
            r@ == matching_devices(
                devices@,
                device_types@,
                crate::av::capture_device::media_type_of(media_type),
                position,
            ),
    {
        let ghost mt = crate::av::capture_device::media_type_of(media_type);
        let ghost orig = devices@;
        let mut out: Vec<Device> = Vec::new();
        let ghost k: int = 0;
        while devices.len() > 0
            invariant
                0 <= k <= orig.len(),
                devices@ =~= orig.skip(k),
                out@ == matching_devices(orig.take(k), device_types@, mt, position),
            decreases devices@.len(),
        {
            let d = devices.remove(0);
            proof {
                assert(d == orig[k]);
                assert(devices@ =~= orig.skip(k + 1));
                assert(orig.take(k + 1).drop_last() =~= orig.take(k));
                assert(orig.take(k + 1).last() == orig[k]);
            }
            let type_ok = {
                let mut found = false;
                let mut i: usize = 0;
                while i < device_types.len()
                    invariant
                        0 <= i <= device_types@.len(),
                        found == exists|j: int|
                            0 <= j < i && device_types@[j] == d.device_type_field,
                    decreases device_types@.len() - i,
                {
                    if device_types[i] == d.device_type_field {
                        found = true;
                    }
                    i = i + 1;
                }
                found
            };
            let media_ok = match media_type {
                Some(m) => d.has_media_type(m),
                None => true,
            };
            let pos_ok = match position {
                Position::Unspecified => true,
                _ => d.position_field == position,
            };
            if type_ok && media_ok && pos_ok {
                proof {
                    assert(matches_discovery(d, device_types@, mt, position));
                }
                out.push(d);
            } else {
                proof {
                    assert(!matches_discovery(d, device_types@, mt, position));
                }
                d.leak_device();
            }
            proof {
                k = k + 1;
            }
        }
        proof {
            assert(orig.take(k) =~= orig);
        }
        out
    }

    /// Sort a list of devices into discovery order by repeatedly moving a
    /// least remaining device over. The result is a permutation of the
    /// input; among devices of equal type and position the order is
    /// whichever the selection found first, which is all the native
    /// framework promises.
    #[verifier::loop_isolation(false)]
    fn sort_discovery(mut input: Vec<Device>, device_types: &Vec<Type>) -> (r: Vec<Device>)
        ensures
            r@.to_multiset() == input@.to_multiset(),
            sorted_by_discovery(device_types@, r@),
    {
        let ghost orig = input@;
        let mut out: Vec<Device> = Vec::new();
        while input.len() > 0
            invariant
                out@.to_multiset().add(input@.to_multiset()) =~= orig.to_multiset(),
                sorted_by_discovery(device_types@, out@),
                forall|a: int, b: int|
                    0 <= a < out@.len() && 0 <= b < input@.len() ==> discovery_le(
                        device_types@,
                        out@[a],
                        input@[b],
                    ),
            decreases input@.len(),
        {
            let mut m: usize = 0;
            let mut j: usize = 1;
            while j < input.len()
                invariant
                    input@.len() > 0,
                    0 <= m < j <= input@.len(),
                    forall|k: int|
                        0 <= k < j ==> discovery_le(device_types@, input@[m as int], input@[k]),
                decreases input@.len() - j,
            {
                if Self::discovery_precedes(device_types, &input[j], &input[m]) {
                    m = j;
                }
                j = j + 1;
            }
            let ghost pre = input@;
            let d = input.remove(m);
            proof {
                assert(d == pre[m as int]);
                assert(pre.contains(d));
                assert(input@.to_multiset() =~= pre.to_multiset().remove(d));
                assert(out@.push(d).to_multiset() =~= out@.to_multiset().insert(d));
                assert(out@.push(d).to_multiset().add(input@.to_multiset())
                    =~= out@.to_multiset().add(pre.to_multiset()));
                assert(forall|b: int|
                    0 <= b < input@.len() ==> input@[b] == pre[b] || input@[b] == pre[b + 1]);
            }
            out.push(d);
        }
        proof {
            assert(input@.to_multiset() =~= Multiset::<Device>::empty());
            assert(out@.to_multiset() =~= orig.to_multiset());
        }
        out
    }
}

/// A discovery session: the registry's devices that met the criteria at
/// creation time, in discovery order. The criteria and the registry the
/// session searched stay with it as ghost state, so the list's completeness
/// — every matching registry device appears exactly once — is part of the
/// session's stated shape.
pub struct DiscoverySession {
    devices_field: Vec<Device>,
    device_types: Ghost<Seq<Type>>,
    media_type: Ghost<Option<MediaType>>,
    position: Ghost<Position>,
    registry: Ghost<Seq<Device>>,
}

impl DiscoverySession {
    /// The declared device types the session was created with.
    pub closed spec fn device_types_spec(&self) -> Seq<Type> {
        self.device_types@
    }

    /// The media type the session filtered by.
    pub closed spec fn media_type_spec(&self) -> Option<MediaType> {
        self.media_type@
    }

    /// The position the session filtered by.
    pub closed spec fn position_spec(&self) -> Position {
        self.position@
    }

    /// The registry the session searched.
    pub closed spec fn registry_spec(&self) -> Seq<Device> {
        self.registry@
    }

    /// The devices the session found.
    pub closed spec fn devices_spec(&self) -> Seq<Device> {
        self.devices_field@
    }

    /// The session's shape: it searched the system registry; every matching
    /// registry device appears exactly once (and nothing else); every listed
    /// device meets the criteria; and the list is in discovery order.
    pub open spec fn wf(&self) -> bool {
        &&& is_system_registry(self.registry_spec())
        &&& self.devices_spec().to_multiset() == matching_devices(
            self.registry_spec(),
            self.device_types_spec(),
            self.media_type_spec(),
            self.position_spec(),
        ).to_multiset()
        &&& forall|i: int|
            0 <= i < self.devices_spec().len() ==> matches_discovery(
                #[trigger] self.devices_spec()[i],
                self.device_types_spec(),
                self.media_type_spec(),
                self.position_spec(),
            )
        &&& sorted_by_discovery(self.device_types_spec(), self.devices_spec())
    }

    /// Discover the registry devices meeting the criteria, ordered by the
    /// declared device types and then by position.
    pub fn with_device_types_media_and_position(
        device_types: &Vec<Type>,
        media_type: Option<&MediaType>,
        position: Position,
    ) -> (s: DiscoverySession)
        ensures
            s.wf(),
            s.device_types_spec() == device_types@,
            s.media_type_spec() == crate::av::capture_device::media_type_of(media_type),
            s.position_spec() == position,
    {
        let ghost mt = crate::av::capture_device::media_type_of(media_type);
        let sys = system_devices();
        let ghost registry = sys@;
        let found = Device::filter_discovery(sys, device_types, media_type, position);
        let ghost matching = matching_devices(registry, device_types@, mt, position);
        let devices_field = Device::sort_discovery(found, device_types);
        proof {
            lemma_matching_devices_sound(registry, device_types@, mt, position);
            assert(forall|i: int|
                0 <= i < devices_field@.len() ==> matching.to_multiset().contains(
                    #[trigger] devices_field@[i],
                )) by {
                assert(forall|i: int|
                    0 <= i < devices_field@.len() ==> devices_field@.to_multiset().contains(
                        #[trigger] devices_field@[i],
                    ));
            }
            assert(forall|i: int|
                0 <= i < devices_field@.len() ==> matches_discovery(
                    #[trigger] devices_field@[i],
                    device_types@,
                    mt,
                    position,
                )) by {
                assert(forall|d: Device|
                    matching.to_multiset().contains(d) ==> #[trigger] matching.contains(d));
            }
        }
        DiscoverySession {
            devices_field,
            device_types: Ghost(device_types@),
            media_type: Ghost(mt),
            position: Ghost(position),
            registry: Ghost(registry),
        }
    }

    /// The autoreleased variant of
    /// [`DiscoverySession::with_device_types_media_and_position`].
    pub fn with_device_types_media_and_position_ar(
        device_types: &Vec<Type>,
        media_type: Option<&MediaType>,
        position: Position,
    ) -> (s: DiscoverySession)
        ensures
            s.wf(),
            s.device_types_spec() == device_types@,
            s.media_type_spec() == crate::av::capture_device::media_type_of(media_type),
            s.position_spec() == position,
    {
        Self::with_device_types_media_and_position(device_types, media_type, position)
    }

    /// The devices that met the session's criteria, in discovery order.
    pub fn devices(&self) -> (r: &Vec<Device>)
        ensures
            r@ == self.devices_spec(),
    {
        &self.devices_field
    }

    /// The sets of discovered devices that may capture together in one
    /// multi-camera session; the mock registry reports none.
    pub fn supported_multi_cam_device_sets(&self) -> (r: Vec<Vec<Device>>)
        ensures
            r@.len() == 0,
    {
        Vec::new()
    }
}

} // verus!
