//! Maps over the five profile slots and the three transports.

use vstd::prelude::*;

use crate::exact::{same_option, SameValue};
use crate::protocol::{ProfileId, TransportKind};

verus! {

/// At most one value per profile slot, in slot order.
#[derive(Clone, Copy, Debug, PartialEq, Eq)]
pub struct ProfileMap<T> {
    pub one: Option<T>,
    pub two: Option<T>,
    pub three: Option<T>,
    pub four: Option<T>,
    pub five: Option<T>,
}

impl<T> ProfileMap<T> {
    pub open spec fn empty() -> ProfileMap<T> {
        ProfileMap { one: None, two: None, three: None, four: None, five: None }
    }

    /// The value in a slot.
    pub open spec fn at(self, profile: ProfileId) -> Option<T> {
        match profile {
            ProfileId::One => self.one,
            ProfileId::Two => self.two,
            ProfileId::Three => self.three,
            ProfileId::Four => self.four,
            ProfileId::Five => self.five,
        }
    }

    /// The map with one slot replaced.
    pub open spec fn with(self, profile: ProfileId, value: Option<T>) -> ProfileMap<T> {
        match profile {
            ProfileId::One => ProfileMap { one: value, ..self },
            ProfileId::Two => ProfileMap { two: value, ..self },
            ProfileId::Three => ProfileMap { three: value, ..self },
            ProfileId::Four => ProfileMap { four: value, ..self },
            ProfileId::Five => ProfileMap { five: value, ..self },
        }
    }

    /// The number of filled slots.
    pub open spec fn filled(self) -> nat {
        (if self.one is Some { 1nat } else { 0 }) + (if self.two is Some { 1nat } else { 0 }) + (
        if self.three is Some { 1nat } else { 0 }) + (if self.four is Some { 1nat } else { 0 }) + (
        if self.five is Some { 1nat } else { 0 })
    }

    pub fn new() -> (r: Self)
        ensures
            r == ProfileMap::<T>::empty(),
    {
        ProfileMap { one: None, two: None, three: None, four: None, five: None }
    }

    pub fn get(&self, profile: ProfileId) -> (r: Option<&T>)
        ensures
            r is Some <==> self.at(profile) is Some,
            r matches Some(v) ==> self.at(profile) == Some(*v),
    {
        match profile {
            ProfileId::One => self.one.as_ref(),
            ProfileId::Two => self.two.as_ref(),
            ProfileId::Three => self.three.as_ref(),
            ProfileId::Four => self.four.as_ref(),
            ProfileId::Five => self.five.as_ref(),
        }
    }

    pub fn contains_key(&self, profile: ProfileId) -> (r: bool)
        ensures
            r == (self.at(profile) is Some),
    {
        self.get(profile).is_some()
    }

    /// Fills a slot and hands back what was there.
    pub fn insert(&mut self, profile: ProfileId, value: T) -> (r: Option<T>)
        ensures
            *final(self) == old(self).with(profile, Some(value)),
            r == old(self).at(profile),
    {
        self.replace(profile, Some(value))
    }

    /// Empties a slot and hands back what was there.
    pub fn remove(&mut self, profile: ProfileId) -> (r: Option<T>)
        ensures
            *final(self) == old(self).with(profile, None),
            r == old(self).at(profile),
    {
        self.replace(profile, None)
    }

    fn replace(&mut self, profile: ProfileId, value: Option<T>) -> (r: Option<T>)
        ensures
            *final(self) == old(self).with(profile, value),
            r == old(self).at(profile),
    {
        let mut slot: Option<T> = value;
        match profile {
            ProfileId::One => std::mem::swap(&mut slot, &mut self.one),
            ProfileId::Two => std::mem::swap(&mut slot, &mut self.two),
            ProfileId::Three => std::mem::swap(&mut slot, &mut self.three),
            ProfileId::Four => std::mem::swap(&mut slot, &mut self.four),
            ProfileId::Five => std::mem::swap(&mut slot, &mut self.five),
        }
        slot
    }

    pub fn len(&self) -> (r: usize)
        ensures
            r == self.filled(),
    {
        (if self.one.is_some() { 1usize } else { 0 }) + (if self.two.is_some() { 1usize } else { 0 })
            + (if self.three.is_some() { 1usize } else { 0 }) + (if self.four.is_some() {
            1usize
        } else {
            0
        }) + (if self.five.is_some() { 1usize } else { 0 })
    }

    pub fn is_empty(&self) -> (r: bool)
        ensures
            r == (*self == ProfileMap::<T>::empty()),
    {
        self.one.is_none() && self.two.is_none() && self.three.is_none() && self.four.is_none()
            && self.five.is_none()
    }
}

impl<T: SameValue> SameValue for ProfileMap<T> {
    fn same(&self, other: &Self) -> (r: bool) {
        same_option(&self.one, &other.one) && same_option(&self.two, &other.two) && same_option(
            &self.three,
            &other.three,
        ) && same_option(&self.four, &other.four) && same_option(&self.five, &other.five)
    }
}

/// At most one value per transport.
#[derive(Clone, Copy, Debug, PartialEq, Eq)]
pub struct TransportMap<T> {
    pub wired: Option<T>,
    pub receiver: Option<T>,
    pub ble: Option<T>,
}

impl<T> TransportMap<T> {
    pub open spec fn empty() -> TransportMap<T> {
        TransportMap { wired: None, receiver: None, ble: None }
    }

    pub open spec fn at(self, transport: TransportKind) -> Option<T> {
        match transport {
            TransportKind::Wired => self.wired,
            TransportKind::Receiver => self.receiver,
            TransportKind::Ble => self.ble,
        }
    }

    pub open spec fn with(self, transport: TransportKind, value: Option<T>) -> TransportMap<T> {
        match transport {
            TransportKind::Wired => TransportMap { wired: value, ..self },
            TransportKind::Receiver => TransportMap { receiver: value, ..self },
            TransportKind::Ble => TransportMap { ble: value, ..self },
        }
    }

    pub open spec fn filled(self) -> nat {
        (if self.wired is Some { 1nat } else { 0 }) + (if self.receiver is Some { 1nat } else { 0 })
            + (if self.ble is Some { 1nat } else { 0 })
    }

    pub fn new() -> (r: Self)
        ensures
            r == TransportMap::<T>::empty(),
    {
        TransportMap { wired: None, receiver: None, ble: None }
    }

    pub fn get(&self, transport: TransportKind) -> (r: Option<&T>)
        ensures
            r is Some <==> self.at(transport) is Some,
            r matches Some(v) ==> self.at(transport) == Some(*v),
    {
        match transport {
            TransportKind::Wired => self.wired.as_ref(),
            TransportKind::Receiver => self.receiver.as_ref(),
            TransportKind::Ble => self.ble.as_ref(),
        }
    }

    pub fn contains_key(&self, transport: TransportKind) -> (r: bool)
        ensures
            r == (self.at(transport) is Some),
    {
        self.get(transport).is_some()
    }

    pub fn insert(&mut self, transport: TransportKind, value: T)
        ensures
            *final(self) == old(self).with(transport, Some(value)),
    {
        match transport {
            TransportKind::Wired => {
                self.wired = Some(value);
            },
            TransportKind::Receiver => {
                self.receiver = Some(value);
            },
            TransportKind::Ble => {
                self.ble = Some(value);
            },
        }
    }

    pub fn remove(&mut self, transport: TransportKind)
        ensures
            *final(self) == old(self).with(transport, None),
    {
        match transport {
            TransportKind::Wired => {
                self.wired = None;
            },
            TransportKind::Receiver => {
                self.receiver = None;
            },
            TransportKind::Ble => {
                self.ble = None;
            },
        }
    }

    pub fn len(&self) -> (r: usize)
        ensures
            r == self.filled(),
    {
        (if self.wired.is_some() { 1usize } else { 0 }) + (if self.receiver.is_some() { 1usize } else { 0 })
            + (if self.ble.is_some() { 1usize } else { 0 })
    }
}

/// What two lists joined together hold.
pub proof fn lemma_in_sum<T>(a: Seq<T>, b: Seq<T>, x: T)
    ensures
        (a + b).contains(x) <==> a.contains(x) || b.contains(x),
{
    if a.contains(x) {
        let i = choose|i: int| 0 <= i < a.len() && a[i] == x;
        assert((a + b)[i] == x);
    }
    if b.contains(x) {
        let i = choose|i: int| 0 <= i < b.len() && b[i] == x;
        assert((a + b)[a.len() + i] == x);
    }
    if (a + b).contains(x) {
        let i = choose|i: int| 0 <= i < (a + b).len() && (a + b)[i] == x;
        if i < a.len() {
            assert(a[i] == x);
        } else {
            assert(b[i - a.len()] == x);
        }
    }
}

/// A profile slot that is replaced holds what it was given, every other slot
/// keeps what it held, an empty map holds nothing, and a map is known by its
/// slots.
pub proof fn law_profile_slots_are_separate<T>(
    map: ProfileMap<T>,
    profile: ProfileId,
    value: Option<T>,
    other: ProfileId,
)
    ensures
        map.with(profile, value).at(profile) == value,
        other != profile ==> map.with(profile, value).at(other) == map.at(other),
        ProfileMap::<T>::empty().at(other) is None,
        map == ProfileMap::<T>::empty() <==> forall|slot: ProfileId|
            (#[trigger] map.at(slot)) is None,
        map.with(profile, Some(value->0)).filled() > 0,
        map.filled() == 0 <==> map == ProfileMap::<T>::empty(),
        map.at(profile) is None ==> map.with(profile, Some(value->0)).filled() == map.filled() + 1,
{
    if forall|slot: ProfileId| (#[trigger] map.at(slot)) is None {
        assert(map.at(ProfileId::One) is None);
        assert(map.at(ProfileId::Two) is None);
        assert(map.at(ProfileId::Three) is None);
        assert(map.at(ProfileId::Four) is None);
        assert(map.at(ProfileId::Five) is None);
    }
}

/// A transport that is given a value holds it, the other transports keep what
/// they held, and an empty map holds nothing.
pub proof fn law_transport_slots_are_separate<T>(
    map: TransportMap<T>,
    transport: TransportKind,
    value: Option<T>,
    other: TransportKind,
)
    ensures
        map.with(transport, value).at(transport) == value,
        other != transport ==> map.with(transport, value).at(other) == map.at(other),
        TransportMap::<T>::empty().at(other) is None,
        map.at(transport) is None ==> map.with(transport, Some(value->0)).filled() == map.filled()
            + 1,
        TransportMap::<T>::empty().filled() == 0,
{
}

/// Each slot of a map is found under its own name.
pub proof fn law_slots_are_found_by_name<T>(
    profiles: ProfileMap<T>,
    transports: TransportMap<T>,
    profile: ProfileId,
    transport: TransportKind,
)
    ensures
        profiles.at(profile) == (if profile is One {
            profiles.one
        } else if profile is Two {
            profiles.two
        } else if profile is Three {
            profiles.three
        } else if profile is Four {
            profiles.four
        } else {
            profiles.five
        }),
        transports.at(transport) == (if transport is Wired {
            transports.wired
        } else if transport is Receiver {
            transports.receiver
        } else {
            transports.ble
        }),
{
}

} // verus!
