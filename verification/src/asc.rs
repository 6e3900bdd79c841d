//! The device capability and the address-space controller that routes
//! accesses to devices and records the accesses that no device answers.

use std::collections::HashMap;
use vstd::prelude::*;

verus! {

broadcast use vstd::std_specs::hash::group_hash_axioms;

/// What every device on a bus offers: a byte read and a byte write at a
/// 16-bit address.
///
/// A device is modelled by its view. Both operations are deterministic
/// functions of that model: `write_spec` gives the model after a write,
/// `read_spec` the model after a read together with the byte read (a read may
/// change the device, as a status register does).
pub trait MemoryMapped: View + Sized {
    /// The representation invariant of the device.
    spec fn inv(&self) -> bool;

    /// The model after writing `value` at `addr`.
    spec fn write_spec(state: Self::V, addr: u16, value: u8) -> Self::V;

    /// The model after reading at `addr`, and the byte that the read gives.
    spec fn read_spec(state: Self::V, addr: u16) -> (Self::V, u8);

    fn write(&mut self, addr: u16, value: u8)
        requires
            old(self).inv(),
        ensures
            final(self).inv(),
            final(self)@ == Self::write_spec(old(self)@, addr, value),
    ;

    fn read(&mut self, addr: u16) -> (value: u8)
        requires
            old(self).inv(),
        ensures
            final(self).inv(),
            (final(self)@, value) == Self::read_spec(old(self)@, addr),
    ;
}

/// One entry of a bus: the device that answers an address, and the mask that
/// the address is narrowed with before the device sees it.
#[derive(Clone, Copy, Debug)]
pub struct Mapping {
    /// The handle of the device, as `Asc::add_device` gave it.
    pub device: usize,
    /// The mirror mask: the device is accessed at the raw address ANDed with
    /// it.
    pub mirror_mask: u16,
}

/// An access that no device answered.
#[derive(Clone, Copy, Debug, PartialEq, Eq)]
pub enum BusMiss {
    /// A read at `addr`, which gave zero.
    Read { addr: u16 },
    /// A write of `value` at `addr`, which was dropped.
    Write { addr: u16, value: u8 },
}

/// The model of a bus: the models of its devices by handle, the entry that
/// each mapped raw address has, and the misses that the bus has recorded
/// and not yet handed out, the oldest first.
pub struct AscView<S> {
    pub devices: Seq<S>,
    pub mappings: Map<u16, Mapping>,
    pub misses: Seq<BusMiss>,
}

impl<S> AscView<S> {
    /// Every entry names a device that the bus holds.
    pub open spec fn wf(self) -> bool {
        forall|addr: u16| #[trigger]
            self.mappings.contains_key(addr) ==> self.mappings[addr].device < self.devices.len()
    }

    /// Whether some device answers the raw address `addr`.
    pub open spec fn is_mapped(self, addr: u16) -> bool {
        self.mappings.contains_key(addr)
    }

    /// The address that the device mapped at the raw address `addr` sees.
    pub open spec fn device_addr(self, addr: u16) -> u16 {
        addr & self.mappings[addr].mirror_mask
    }
}

/// The entries of `mappings` with every address from `first` to `last`, both
/// included, mapped to `mapping`. Nothing is added when `first > last`.
pub open spec fn with_range(
    mappings: Map<u16, Mapping>,
    first: u16,
    last: u16,
    mapping: Mapping,
) -> Map<u16, Mapping> {
    Map::new(
        |addr: u16| mappings.contains_key(addr) || first <= addr <= last,
        |addr: u16|
            if first <= addr <= last {
                mapping
            } else {
                mappings[addr]
            },
    )
}

/// The entries of `mappings` with every address that occurs in `addrs`
/// mapped to `mapping`.
pub open spec fn with_addresses(
    mappings: Map<u16, Mapping>,
    addrs: Seq<u16>,
    mapping: Mapping,
) -> Map<u16, Mapping> {
    Map::new(
        |addr: u16| mappings.contains_key(addr) || addrs.contains(addr),
        |addr: u16|
            if addrs.contains(addr) {
                mapping
            } else {
                mappings[addr]
            },
    )
}

/// The address-space controller: a set of devices, and for each mapped raw
/// address the device that answers it and a mirror mask.
///
/// Devices live in the bus and are named by handle, so one device can answer
/// many addresses. An access to an address that has no entry is a miss: a
/// read gives zero, a write is dropped, and the bus records the miss for
/// whoever wants to report it.
#[derive(Debug)]
pub struct Asc<D: MemoryMapped> {
    devices: Vec<D>,
    mappings: HashMap<u16, Mapping>,
    misses: Vec<BusMiss>,
}

impl<D: MemoryMapped> View for Asc<D> {
    type V = AscView<D::V>;

    closed spec fn view(&self) -> AscView<D::V> {
        AscView {
            devices: Seq::new(self.devices@.len(), |i: int| self.devices@[i]@),
            mappings: self.mappings@,
            misses: self.misses@,
        }
    }
}

impl<D: MemoryMapped> Asc<D> {
    /// A bus without devices, on which every access is a miss.
    pub fn new() -> (asc: Asc<D>)
        ensures
            asc.inv(),
            asc@.devices == Seq::<D::V>::empty(),
            asc@.mappings == Map::<u16, Mapping>::empty(),
            asc@.misses == Seq::<BusMiss>::empty(),
    {
        let asc = Asc { devices: Vec::new(), mappings: HashMap::new(), misses: Vec::new() };
        assert(asc@.devices =~= Seq::<D::V>::empty());
        asc
    }

    /// Hands a device over to the bus and returns its handle. No address
    /// leads to it until one is registered.
    pub fn add_device(&mut self, dev: D) -> (handle: usize)
        requires
            old(self).inv(),
            dev.inv(),
        ensures
            final(self).inv(),
            handle == old(self)@.devices.len(),
            final(self)@.devices == old(self)@.devices.push(dev@),
            final(self)@.mappings == old(self)@.mappings,
            final(self)@.misses == old(self)@.misses,
    {
        let handle = self.devices.len();
        self.devices.push(dev);
        assert(self@.devices =~= old(self)@.devices.push(dev@));
        handle
    }

    /// The number of devices that the bus holds.
    pub fn device_count(&self) -> (n: usize)
        ensures
            n == self@.devices.len(),
    {
        self.devices.len()
    }

    /// The model of a well-formed bus is well formed.
    pub proof fn lemma_view_wf(&self)
        requires
            self.inv(),
        ensures
            self@.wf(),
    {
    }

    /// Whether some device answers the raw address `addr`.
    pub fn is_mapped(&self, addr: u16) -> (mapped: bool)
        ensures
            mapped == self@.is_mapped(addr),
    {
        self.mappings.contains_key(&addr)
    }

    /// Hands out the misses recorded since they were last handed out, the
    /// oldest first, and forgets them.
    pub fn take_misses(&mut self) -> (misses: Vec<BusMiss>)
        requires
            old(self).inv(),
        ensures
            final(self).inv(),
            misses@ == old(self)@.misses,
            final(self)@ == (AscView { misses: Seq::<BusMiss>::empty(), ..old(self)@ }),
    {
        let mut misses: Vec<BusMiss> = Vec::new();
        misses.append(&mut self.misses);
        assert(misses@ =~= old(self)@.misses);
        assert(self@.misses =~= Seq::<BusMiss>::empty());
        assert(self@.devices =~= old(self)@.devices);
        misses
    }

    /// The device with the handle `handle`.
    pub fn device(&self, handle: usize) -> (dev: &D)
        requires
            self.inv(),
            handle < self@.devices.len(),
        ensures
            dev.inv(),
            dev@ == self@.devices[handle as int],
    {
        &self.devices[handle]
    }

    /// The device with the handle `handle`, to be worked on in place. The
    /// bus is well formed again once the device is.
    pub fn device_mut(&mut self, handle: usize) -> (dev: &mut D)
        requires
            old(self).inv(),
            handle < old(self)@.devices.len(),
        ensures
            dev.inv(),
            dev@ == old(self)@.devices[handle as int],
            final(self)@.mappings == old(self)@.mappings,
            final(self)@.misses == old(self)@.misses,
            final(self)@.devices == old(self)@.devices.update(handle as int, final(dev)@),
            final(dev).inv() ==> final(self).inv(),
    {
        &mut self.devices[handle]
    }

    /// Maps the raw address `addr` to the device `dev`, which will see it
    /// ANDed with `mirror_mask`. An earlier entry for `addr` is replaced.
    pub fn register_device(&mut self, addr: u16, dev: usize, mirror_mask: u16)
        requires
            old(self).inv(),
            dev < old(self)@.devices.len(),
        ensures
            final(self).inv(),
            final(self)@.devices == old(self)@.devices,
            final(self)@.misses == old(self)@.misses,
            final(self)@.mappings == old(self)@.mappings.insert(
                addr,
                Mapping { device: dev, mirror_mask },
            ),
    {
        self.mappings.insert(addr, Mapping { device: dev, mirror_mask });
        assert(self@.devices =~= old(self)@.devices);
    }

    /// Maps every raw address from `first` to `last`, both included, to the
    /// one device `dev` with the one mask `mirror_mask`. Earlier entries for
    /// these addresses are replaced. Nothing happens when `first > last`.
    pub fn register_device_range(&mut self, first: u16, last: u16, dev: usize, mirror_mask: u16)
        requires
            old(self).inv(),
            dev < old(self)@.devices.len(),
        ensures
            final(self).inv(),
            final(self)@.devices == old(self)@.devices,
            final(self)@.misses == old(self)@.misses,
            final(self)@.mappings == with_range(
                old(self)@.mappings,
                first,
                last,
                Mapping { device: dev, mirror_mask },
            ),
    {
        let ghost mapping = Mapping { device: dev, mirror_mask };
        if first > last {
            assert(self@.mappings =~= with_range(old(self)@.mappings, first, last, mapping));
            return ;
        }
        let mut addr: u16 = first;
        self.register_device(addr, dev, mirror_mask);
        while addr < last
            invariant
                first <= addr <= last,
                self.inv(),
                dev < self@.devices.len(),
                mapping == (Mapping { device: dev, mirror_mask }),
                self@.devices == old(self)@.devices,
                self@.misses == old(self)@.misses,
                self@.mappings =~= with_range(old(self)@.mappings, first, addr, mapping),
            decreases last - addr,
        {
            addr += 1;
            self.register_device(addr, dev, mirror_mask);
        }
    }

    /// Maps every raw address of `addrs`, in whatever order and however
    /// often it occurs there, to the one device `dev` with the one mask
    /// `mirror_mask`. Earlier entries for these addresses are replaced.
    pub fn register_device_addrs(&mut self, addrs: &[u16], dev: usize, mirror_mask: u16)
        requires
            old(self).inv(),
            dev < old(self)@.devices.len(),
        ensures
            final(self).inv(),
            final(self)@.devices == old(self)@.devices,
            final(self)@.misses == old(self)@.misses,
            final(self)@.mappings == with_addresses(
                old(self)@.mappings,
                addrs@,
                Mapping { device: dev, mirror_mask },
            ),
    {
        let ghost mapping = Mapping { device: dev, mirror_mask };
        assert(self@.mappings =~= with_addresses(old(self)@.mappings, addrs@.take(0), mapping));
        let mut i: usize = 0;
        while i < addrs.len()
            invariant
                i <= addrs.len(),
                self.inv(),
                dev < self@.devices.len(),
                mapping == (Mapping { device: dev, mirror_mask }),
                self@.devices == old(self)@.devices,
                self@.misses == old(self)@.misses,
                self@.mappings =~= with_addresses(
                    old(self)@.mappings,
                    addrs@.take(i as int),
                    mapping,
                ),
            decreases addrs.len() - i,
        {
            let ghost before = addrs@.take(i as int);
            let ghost after = addrs@.take(i + 1);
            let ghost next = addrs@[i as int];
            assert(after =~= before.push(next));
            assert forall|a: u16| after.contains(a) <==> (before.contains(a) || a == next) by {
                if before.contains(a) {
                    let k = choose|k: int| 0 <= k < before.len() && before[k] == a;
                    assert(after[k] == a);
                }
                if a == next {
                    assert(after[i as int] == a);
                }
            }
            self.register_device(addrs[i], dev, mirror_mask);
            i += 1;
        }
        assert(addrs@.take(addrs@.len() as int) =~= addrs@);
    }
}

impl<D: MemoryMapped> MemoryMapped for Asc<D> {
    /// Every device is well formed and every entry names a device of the bus.
    closed spec fn inv(&self) -> bool {
        &&& forall|i: int| 0 <= i < self.devices@.len() ==> (#[trigger] self.devices@[i]).inv()
        &&& forall|addr: u16| #[trigger]
            self.mappings@.contains_key(addr) ==> self.mappings@[addr].device < self.devices@.len()
    }

    /// A write to a mapped address is a write to its device at the masked
    /// address; a write to any other address is dropped and recorded as a
    /// miss.
    open spec fn write_spec(state: AscView<D::V>, addr: u16, value: u8) -> AscView<D::V> {
        if state.is_mapped(addr) {
            let handle = state.mappings[addr].device as int;
            AscView {
                devices: state.devices.update(
                    handle,
                    D::write_spec(state.devices[handle], state.device_addr(addr), value),
                ),
                ..state
            }
        } else {
            AscView { misses: state.misses.push(BusMiss::Write { addr, value }), ..state }
        }
    }

    /// A read at a mapped address is a read of its device at the masked
    /// address; a read at any other address gives zero and is recorded as a
    /// miss.
    open spec fn read_spec(state: AscView<D::V>, addr: u16) -> (AscView<D::V>, u8) {
        if state.is_mapped(addr) {
            let handle = state.mappings[addr].device as int;
            let (device, value) = D::read_spec(state.devices[handle], state.device_addr(addr));
            (AscView { devices: state.devices.update(handle, device), ..state }, value)
        } else {
            (AscView { misses: state.misses.push(BusMiss::Read { addr }), ..state }, 0u8)
        }
    }

    fn write(&mut self, addr: u16, value: u8) {
        match self.mappings.get(&addr) {
            Some(mapping) => {
                let handle = mapping.device;
                let target = addr & mapping.mirror_mask;
                self.devices[handle].write(target, value);
                assert(self@.devices =~= old(self)@.devices.update(
                    handle as int,
                    D::write_spec(old(self)@.devices[handle as int], target, value),
                ));
            },
            None => {
                self.misses.push(BusMiss::Write { addr, value });
                assert(self@.devices =~= old(self)@.devices);
            },
        }
    }

    fn read(&mut self, addr: u16) -> (value: u8) {
        match self.mappings.get(&addr) {
            Some(mapping) => {
                let handle = mapping.device;
                let target = addr & mapping.mirror_mask;
                let value = self.devices[handle].read(target);
                assert(self@.devices =~= old(self)@.devices.update(
                    handle as int,
                    D::read_spec(old(self)@.devices[handle as int], target).0,
                ));
                value
            },
            None => {
                self.misses.push(BusMiss::Read { addr });
                assert(self@.devices =~= old(self)@.devices);
                0
            },
        }
    }
}

} // verus!
