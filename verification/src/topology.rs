//! Watching the USB bus for mice of this family.

use vstd::prelude::*;

use crate::exact::SameValue;
use crate::operation::DeviceTopologyEvent;

verus! {

pub const VENDOR_ID: u16 = 0x1d57;

pub const RECEIVER_PRODUCT_ID: u16 = 0xfa60;

pub const WIRED_PRODUCT_ID: u16 = 0xfa61;

/// A USB device of this family.
pub open spec fn is_supported(vendor_id: u16, product_id: u16) -> bool {
    vendor_id == VENDOR_ID && (product_id == RECEIVER_PRODUCT_ID || product_id == WIRED_PRODUCT_ID)
}

/// Tells whether a USB device belongs to this family.
pub fn is_supported_usb_device(vendor_id: u16, product_id: u16) -> (r: bool)
    ensures
        r == is_supported(vendor_id, product_id),
{
    vendor_id == VENDOR_ID && (product_id == RECEIVER_PRODUCT_ID || product_id == WIRED_PRODUCT_ID)
}

/// The mice of this family that are on the bus, by their bus identities. A
/// removal does not say what was removed, so they have to be remembered.
#[derive(Debug)]
pub struct TopologyWatch<K> {
    present: Vec<K>,
}

impl<K> View for TopologyWatch<K> {
    type V = Set<K>;

    closed spec fn view(&self) -> Set<K> {
        self.present@.to_set()
    }
}

impl<K> TopologyWatch<K> {
    #[verifier::type_invariant]
    spec fn wf(self) -> bool {
        self.present@.no_duplicates()
    }
}

impl<K: SameValue> TopologyWatch<K> {
    pub fn new() -> (r: Self)
        ensures
            r@ == Set::<K>::empty(),
    {
        let present: Vec<K> = Vec::new();
        assert(present@.to_set() =~= Set::<K>::empty());
        TopologyWatch { present }
    }

    fn position(&self, id: &K) -> (r: Option<usize>)
        ensures
            match r {
                Some(i) => i < self.present@.len() && self.present@[i as int] == *id,
                None => !self.present@.contains(*id),
            },
    {
        let mut i: usize = 0;
        while i < self.present.len()
            invariant
                i <= self.present@.len(),
                forall|j: int| 0 <= j < i ==> self.present@[j] != *id,
            decreases self.present@.len() - i,
        {
            if self.present[i].same(id) {
                return Some(i);
            }
            i = i + 1;
        }
        None
    }

    /// A device appeared.
    pub fn connected(&mut self, vendor_id: u16, product_id: u16, id: K) -> (r: Option<
        DeviceTopologyEvent,
    >)
        ensures
            if is_supported(vendor_id, product_id) {
                &&& r == Some(DeviceTopologyEvent::Connected)
                &&& final(self)@ == old(self)@.insert(id)
            } else {
                &&& r is None
                &&& final(self)@ == old(self)@
            },
    {
        if !is_supported_usb_device(vendor_id, product_id) {
            return None;
        }
        proof {
            use_type_invariant(&*self);
        }
        let ghost before = self.present@;
        match self.position(&id) {
            Some(i) => {
                assert(before.to_set().contains(before[i as int]));
                assert(self@ =~= old(self)@.insert(id));
            },
            None => {
                let mut present: Vec<K> = Vec::new();
                std::mem::swap(&mut present, &mut self.present);
                present.push(id);
                proof {
                    assert forall|x: K| present@.contains(x) <==> before.contains(x) || x == id by {
                        if before.contains(x) {
                            let i = choose|i: int| 0 <= i < before.len() && before[i] == x;
                            assert(present@[i] == x);
                        }
                        assert(present@[before.len() as int] == id);
                    }
                    assert(present@.to_set() =~= before.to_set().insert(id));
                }
                self.present = present;
            },
        }
        Some(DeviceTopologyEvent::Connected)
    }

    /// A device disappeared.
    pub fn disconnected(&mut self, id: &K) -> (r: Option<DeviceTopologyEvent>)
        ensures
            r == (if old(self)@.contains(*id) {
                Some(DeviceTopologyEvent::Disconnected)
            } else {
                None
            }),
            final(self)@ == old(self)@.remove(*id),
    {
        proof {
            use_type_invariant(&*self);
        }
        let ghost before = self.present@;
        match self.position(id) {
            None => {
                assert(self@ =~= old(self)@.remove(*id));
                None
            },
            Some(i) => {
                let mut present: Vec<K> = Vec::new();
                std::mem::swap(&mut present, &mut self.present);
                present.remove(i);
                proof {
                    assert(present@ == before.remove(i as int));
                    assert(before.to_set().contains(before[i as int]));
                    assert forall|a: int, b: int|
                        0 <= a < present@.len() && 0 <= b < present@.len() && a
                            != b implies present@[a] != present@[b] by {
                        let x = if a < i { a } else { a + 1 };
                        let y = if b < i { b } else { b + 1 };
                        assert(present@[a] == before[x]);
                        assert(present@[b] == before[y]);
                    }
                    assert forall|x: K|
                        present@.contains(x) <==> before.contains(x) && x != *id by {
                        if before.contains(x) && x != *id {
                            let k = choose|k: int| 0 <= k < before.len() && before[k] == x;
                            let at = if k < i { k } else { k - 1 };
                            assert(present@[at] == x);
                        }
                        if present@.contains(x) {
                            let k = choose|k: int| 0 <= k < present@.len() && present@[k] == x;
                            let at = if k < i { k } else { k + 1 };
                            assert(before[at] == x);
                        }
                    }
                    assert(present@.to_set() =~= before.to_set().remove(*id));
                }
                self.present = present;
                Some(DeviceTopologyEvent::Disconnected)
            },
        }
    }
}

/// A device of this family is one of the vendor's two products, the receiver
/// or the mouse on its cable.
pub proof fn law_family_is_two_products(vendor_id: u16, product_id: u16, r: bool)
    requires
        call_ensures(is_supported_usb_device, (vendor_id, product_id), r),
    ensures
        r <==> vendor_id == 0x1d57 && (product_id == 0xfa60 || product_id == 0xfa61),
{
}

/// Only mice of this family are reported and remembered. A mouse that appeared
/// is reported again when it disappears, whatever came between, and one that
/// never appeared is not.
pub proof fn law_removals_are_reported_once<K: SameValue>(
    watch: &mut TopologyWatch<K>,
    later: &mut TopologyWatch<K>,
    vendor_id: u16,
    product_id: u16,
    id: K,
    other: K,
    appeared: Option<DeviceTopologyEvent>,
    left: Option<DeviceTopologyEvent>,
)
    requires
        call_ensures(TopologyWatch::<K>::connected, (watch, vendor_id, product_id, id), appeared),
        call_ensures(TopologyWatch::<K>::disconnected, (later, &other), left),
        old(later)@ == final(watch)@,
    ensures
        ({
            let ours = vendor_id == 0x1d57 && (product_id == 0xfa60 || product_id == 0xfa61);
            &&& ours <==> appeared == Some(DeviceTopologyEvent::Connected)
            &&& !ours <==> appeared is None
            &&& left == Some(DeviceTopologyEvent::Disconnected) <==> old(watch)@.contains(other) || (
            ours && other == id)
            &&& left is None <==> !old(watch)@.contains(other) && !(ours && other == id)
            &&& !final(later)@.contains(other)
        }),
{
}

} // verus!
