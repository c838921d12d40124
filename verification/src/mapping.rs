//! Address translation windows: the linear offset mapping and the MMIO
//! device mapper.
//!
//! An `OffsetMapping` is a contiguous window translating between virtual and
//! physical addresses by a constant offset.  A `DeviceVmemMapper` maps a
//! sparse list of 16MB physical device frames into a contiguous virtual
//! region, one 16MB slot per list entry, emulating supersections with runs
//! of 1MB sections.

use vstd::prelude::*;

use crate::addr::PhysicalAddress;
use crate::addr::VirtualAddress;
use crate::attributes::MemoryAttributes;
use crate::attributes::spec_encode_section_attrs;
use crate::paging::PageError;
use crate::paging::TranslationTableDescriptor;
use crate::paging::TranslationTableType;
use crate::paging::lemma_table_descriptor_roundtrip;
use crate::paging::spec_table_type_of;
use crate::tables::TranslationTable;
use crate::tables::spec_section_walk;

verus! {

/// Canonical attribute word every device section is tagged with: access
/// permission privileged-only, execute never.
pub const DEVICE_ATTRIBUTES: u32 = 0x410;

/// 1MB sections written per 16MB device slot.  A full slot spans 16
/// sections; the last 1MB of each slot is left unmapped.
pub const SECTIONS_PER_SLOT: usize = 15;

/// Descriptor word installed for 1MB section `j` of the slot of a device
/// frame: the section's physical base joined with the device attributes.
pub open spec fn spec_device_section_word(frame: u8, j: int) -> u32 {
    (((frame as u32) << 24) | ((j as u32) << 20)) | spec_encode_section_attrs(DEVICE_ATTRIBUTES)
}

/// A linear translation window between virtual and physical memory: the
/// window starts at `virt_start`/`phys_start` and spans `size` bytes, with
/// the bound at the upper edge included.  Both ranges fit in the 32-bit
/// address space without wraparound and the size is positive.
#[derive(Copy, Clone, Debug)]
pub struct OffsetMapping {
    virt_start: VirtualAddress,
    phys_start: PhysicalAddress,
    size: u32,
}

impl OffsetMapping {
    /// Start of the virtual window.
    pub closed spec fn spec_virt_start(self) -> u32 {
        self.virt_start@
    }

    /// Start of the physical window.
    pub closed spec fn spec_phys_start(self) -> u32 {
        self.phys_start@
    }

    /// Size of the window in bytes.
    pub closed spec fn spec_size(self) -> u32 {
        self.size
    }

    /// A well-formed window has positive size and neither range wraps
    /// around the 32-bit address space.
    pub open spec fn wf(self) -> bool {
        &&& self.spec_size() > 0
        &&& self.spec_virt_start() + self.spec_size() <= u32::MAX
        &&& self.spec_phys_start() + self.spec_size() <= u32::MAX
    }

    /// Whether a virtual address lies in the window.
    pub open spec fn spec_virt_in_range(self, virt: u32) -> bool {
        self.spec_virt_start() <= virt <= self.spec_virt_start() + self.spec_size()
    }

    /// Whether a physical address lies in the window.
    pub open spec fn spec_phys_in_range(self, phys: u32) -> bool {
        self.spec_phys_start() <= phys <= self.spec_phys_start() + self.spec_size()
    }

    /// The physical address a virtual one inside the window translates to.
    pub open spec fn spec_virt_to_phys(self, virt: u32) -> u32 {
        (self.spec_phys_start() + (virt - self.spec_virt_start())) as u32
    }

    /// The virtual address a physical one inside the window translates to.
    pub open spec fn spec_phys_to_virt(self, phys: u32) -> u32 {
        (self.spec_virt_start() + (phys - self.spec_phys_start())) as u32
    }

    /// Create a new offset mapping over a window that fits the 32-bit
    /// address space.
    pub fn new(virt_start: VirtualAddress, phys_start: PhysicalAddress, size: u32) -> (r:
        OffsetMapping)
        requires
            size > 0,
            virt_start@ + size <= u32::MAX,
            phys_start@ + size <= u32::MAX,
        ensures
            r.spec_virt_start() == virt_start@,
            r.spec_phys_start() == phys_start@,
            r.spec_size() == size,
            r.wf(),
    {
        OffsetMapping { virt_start, phys_start, size }
    }

    /// Whether a virtual address is in the range of the offset mapping.
    pub fn virt_addr_in_range(&self, virt_addr: VirtualAddress) -> (r: bool)
        requires
            self.wf(),
        ensures
            r == self.spec_virt_in_range(virt_addr@),
    {
        if virt_addr.as_u32() < self.virt_start.as_u32() {
            return false;
        }
        if virt_addr.as_u32() > self.virt_start.as_u32() + self.size {
            return false;
        }
        true
    }

    /// Whether a physical address is in the range of the offset mapping.
    pub fn phys_addr_in_range(&self, phys_addr: PhysicalAddress) -> (r: bool)
        requires
            self.wf(),
        ensures
            r == self.spec_phys_in_range(phys_addr@),
    {
        if phys_addr.as_u32() < self.phys_start.as_u32() {
            return false;
        }
        if phys_addr.as_u32() > self.phys_start.as_u32() + self.size {
            return false;
        }
        true
    }

    /// Translate a virtual address inside the window to its physical
    /// counterpart; `NotInRange` outside the window.
    pub fn convert_virt_addr(&self, vaddr: VirtualAddress) -> (r: Result<
        PhysicalAddress,
        PageError,
    >)
        requires
            self.wf(),
        ensures
            self.spec_virt_in_range(vaddr@) ==> (r matches Ok(p) && p@ == self.spec_virt_to_phys(
                vaddr@,
            )),
            !self.spec_virt_in_range(vaddr@) ==> r == Err::<PhysicalAddress, PageError>(
                PageError::NotInRange,
            ),
    {
        if !self.virt_addr_in_range(vaddr) {
            return Err(PageError::NotInRange);
        }
        let diff = vaddr.as_u32() - self.virt_start.as_u32();
        Ok(PhysicalAddress::new(self.phys_start.as_u32() + diff))
    }

    /// Translate a physical address inside the window to its virtual
    /// counterpart; `NotInRange` outside the window.
    pub fn convert_phys_addr(&self, paddr: PhysicalAddress) -> (r: Result<
        VirtualAddress,
        PageError,
    >)
        requires
            self.wf(),
        ensures
            self.spec_phys_in_range(paddr@) ==> (r matches Ok(v) && v@ == self.spec_phys_to_virt(
                paddr@,
            )),
            !self.spec_phys_in_range(paddr@) ==> r == Err::<VirtualAddress, PageError>(
                PageError::NotInRange,
            ),
    {
        if !self.phys_addr_in_range(paddr) {
            return Err(PageError::NotInRange);
        }
        let diff = paddr.as_u32() - self.phys_start.as_u32();
        Ok(VirtualAddress::new(self.virt_start.as_u32() + diff))
    }
}

/// Law: for every virtual address inside the window, translating it to the
/// physical range and translating the result back yields the address again,
/// and the intermediate physical address lies inside the window too.
pub proof fn lemma_offset_mapping_roundtrip(m: OffsetMapping, virt: u32)
    requires
        m.wf(),
        m.spec_virt_in_range(virt),
    ensures
        m.spec_phys_in_range(m.spec_virt_to_phys(virt)),
        m.spec_phys_to_virt(m.spec_virt_to_phys(virt)) == virt,
{
}

/// Position of the first occurrence of a frame index in a device list.
pub open spec fn spec_position(devices: Seq<u8>, frame: u8) -> Option<int>
    decreases devices.len(),
{
    if devices.len() == 0 {
        None
    } else if devices[0] == frame {
        Some(0)
    } else {
        match spec_position(devices.skip(1), frame) {
            None => None,
            Some(i) => Some(i + 1),
        }
    }
}

/// A frame that occurs first at index `i` has position `i`.
pub proof fn lemma_position_found(devices: Seq<u8>, frame: u8, i: int)
    requires
        0 <= i < devices.len(),
        devices[i] == frame,
        forall|k: int| 0 <= k < i ==> devices[k] != frame,
    ensures
        spec_position(devices, frame) == Some(i),
    decreases i,
{
    if i == 0 {
    } else {
        assert(devices[0] != frame);
        assert forall|k: int| 0 <= k < i - 1 implies devices.skip(1)[k] != frame by {
            assert(devices.skip(1)[k] == devices[k + 1]);
        }
        assert(devices.skip(1)[i - 1] == devices[i]);
        lemma_position_found(devices.skip(1), frame, i - 1);
    }
}

/// A frame that occurs nowhere in the list has no position.
pub proof fn lemma_position_absent(devices: Seq<u8>, frame: u8)
    requires
        forall|k: int| 0 <= k < devices.len() ==> devices[k] != frame,
    ensures
        spec_position(devices, frame) is None,
    decreases devices.len(),
{
    if devices.len() > 0 {
        assert forall|k: int| 0 <= k < devices.skip(1).len() implies devices.skip(1)[k]
            != frame by {
            assert(devices.skip(1)[k] == devices[k + 1]);
        }
        lemma_position_absent(devices.skip(1), frame);
    }
}

/// A position points into the list, at the frame searched for.
pub proof fn lemma_position_in_list(devices: Seq<u8>, frame: u8)
    ensures
        spec_position(devices, frame) matches Some(i) ==> 0 <= i < devices.len() && devices[i]
            == frame,
    decreases devices.len(),
{
    if devices.len() > 0 && devices[0] != frame {
        lemma_position_in_list(devices.skip(1), frame);
        if spec_position(devices.skip(1), frame) is Some {
            let i = spec_position(devices.skip(1), frame)->Some_0;
            assert(devices.skip(1)[i] == devices[i + 1]);
        }
    }
}

/// Maps a sparse list of 16MB physical device frames into a contiguous
/// virtual region starting at a 16MB-aligned base address, one 16MB slot
/// per list entry, in list order.
pub struct DeviceVmemMapper {
    base_address: VirtualAddress,
    device_base_addresses: Vec<u8>,
}

impl DeviceVmemMapper {
    /// Base of the virtual region the devices are mapped into.
    pub closed spec fn spec_base(self) -> u32 {
        self.base_address@
    }

    /// The device list: the leading byte of each device's physical address.
    pub closed spec fn spec_devices(self) -> Seq<u8> {
        self.device_base_addresses@
    }

    /// A well-formed mapper has its virtual base aligned to 16MB.
    pub open spec fn wf(self) -> bool {
        self.spec_base() & 0x00ff_ffff == 0
    }

    /// The whole virtual region fits in the 32-bit address space.
    pub open spec fn fits(self) -> bool {
        self.spec_base() + self.spec_devices().len() * 0x100_0000 <= 0x1_0000_0000
    }

    /// Create a new mapper.
    ///
    /// `base_address` is the base of the virtual address range that will be
    /// used; it must be aligned to 16MB.  `device_base_addresses` lists the
    /// leading byte of each device's physical address.
    pub fn new(base_address: VirtualAddress, device_base_addresses: Vec<u8>) -> (r: Result<
        DeviceVmemMapper,
        PageError,
    >)
        ensures
            base_address@ & 0x00ff_ffff == 0 ==> (r matches Ok(m) && m.spec_base()
                == base_address@ && m.spec_devices() == device_base_addresses@ && m.wf()),
            base_address@ & 0x00ff_ffff != 0 ==> r == Err::<DeviceVmemMapper, PageError>(
                PageError::AlignError,
            ),
    {
        base_address.check_align(0x00ff_ffff)?;
        let out = DeviceVmemMapper { base_address, device_base_addresses };
        Ok(out)
    }

    /// Look the virtual address of a physical device address up: the first
    /// list entry matching the address's leading byte selects the slot, and
    /// the low 24 address bits carry over.  `None` when the frame is not in
    /// the list.
    pub fn lookup(&self, phys_addr: PhysicalAddress) -> (r: Option<VirtualAddress>)
        requires
            self.wf(),
            self.fits(),
        ensures
            match spec_position(self.spec_devices(), (phys_addr@ >> 24) as u8) {
                None => r is None,
                Some(i) => r matches Some(v) && v@ == self.spec_base() + i * 0x100_0000 + (
                phys_addr@ & 0x00ff_ffff),
            },
    {
        let ghost frame: u8 = (phys_addr@ >> 24) as u8;
        let phys_index: u32 = phys_addr.as_u32() >> 24;
        proof {
            let p: u32 = phys_addr@;
            assert(p >> 24 <= 0xff) by (bit_vector);
        }
        let n = self.device_base_addresses.len();
        let mut idx: usize = 0;
        while idx < n
            invariant
                idx <= n,
                n == self.spec_devices().len(),
                phys_index <= 0xff,
                phys_index == phys_addr@ >> 24,
                self.wf(),
                self.fits(),
                forall|k: int| 0 <= k < idx ==> self.spec_devices()[k] != frame,
                frame == (phys_addr@ >> 24) as u8,
            decreases n - idx,
        {
            if self.device_base_addresses[idx] == phys_index as u8 {
                proof {
                    lemma_position_found(self.spec_devices(), frame, idx as int);
                    assert(self.spec_devices().len() <= 256);
                    assert(idx < 256);
                    let iu: u32 = idx as u32;
                    assert(iu < 256 ==> (iu << 24) == iu * 0x100_0000 && (iu << 24) & 0x00ff_ffff
                        == 0) by (bit_vector);
                }
                let naked_phys_addr: u32 = phys_addr.as_u32() & 0x00ff_ffff;
                let slot: u32 = (idx as u32) << 24;
                let out: u32 = self.base_address.as_u32() + slot;
                proof {
                    let b: u32 = self.base_address@;
                    let s: u32 = slot;
                    let o: u32 = out;
                    let p: u32 = phys_addr@;
                    let nk: u32 = naked_phys_addr;
                    assert(p & 0x00ff_ffff <= 0xff_ffff) by (bit_vector);
                    assert((b & 0x00ff_ffff == 0 && s & 0x00ff_ffff == 0 && o == b + s && nk
                        <= 0xff_ffff) ==> (o | nk) == b + s + nk) by (bit_vector);
                    assert((out | naked_phys_addr) == self.spec_base() + idx * 0x100_0000 + (p
                        & 0x00ff_ffff));
                }
                return Some(VirtualAddress::new(out | naked_phys_addr));
            }
            idx = idx + 1;
        }
        proof {
            lemma_position_absent(self.spec_devices(), frame);
        }
        None
    }

    /// First-level table index of 1MB section `j` of 16MB slot `i`.
    pub open spec fn spec_slot_index(self, i: int, j: int) -> int {
        (self.spec_base() >> 20) + i * 16 + j
    }

    /// Whether a table index is among the sections the mapper installs.
    pub open spec fn spec_is_mapped_index(self, idx: int) -> bool {
        exists|i: int, j: int|
            0 <= i < self.spec_devices().len() && 0 <= j < 15 && idx == self.spec_slot_index(i, j)
    }

    /// Whether a table index is among the sections written strictly before
    /// section `j` of slot `i` in the installation order.
    pub open spec fn spec_written_before(self, i: int, j: int, idx: int) -> bool {
        exists|a: int, b: int|
            0 <= a <= i && 0 <= b < 15 && (a < i || b < j) && idx == self.spec_slot_index(a, b)
    }

    /// Every section the mapper installs lands inside the 4096-entry table.
    pub proof fn lemma_slot_index_bounds(self)
        requires
            self.wf(),
            self.fits(),
        ensures
            forall|i: int, j: int|
                0 <= i < self.spec_devices().len() && 0 <= j < 16 ==> 0 <= #[trigger] self.spec_slot_index(i, j) < 4096,
    {
        let b: u32 = self.spec_base();
        assert(b & 0x00ff_ffff == 0 ==> (b >> 20) == (b >> 24) * 16 && b == (b >> 24) * 0x100_0000
            && (b >> 24) < 256) by (bit_vector);
    }

    /// Install the device mapping into a first-level translation table: for
    /// each listed frame, in list order, populate consecutive 1MB section
    /// entries covering the frame's 16MB virtual slot, each privileged-only
    /// and execute-never.  Entries outside the slots stay untouched.
    pub fn do_mapping(&self, table: &mut TranslationTable) -> (r: Result<(), PageError>)
        requires
            self.wf(),
            self.fits(),
            old(table).wf(),
        ensures
            r is Ok,
            final(table).wf(),
            forall|i: int, j: int|
                0 <= i < self.spec_devices().len() && 0 <= j < 15 ==> final(table)@[
                    self.spec_slot_index(i, j)
                ]@ == spec_device_section_word(self.spec_devices()[i], j),
            forall|idx: int|
                0 <= idx < 4096 && !self.spec_is_mapped_index(idx) ==> final(table)@[idx] == old(
                    table,
                )@[idx],
    {
        let attributes = MemoryAttributes::from_bits(DEVICE_ATTRIBUTES);
        proof {
            assert(0x410u32 & 0x000b_fdfd == 0x410) by (bit_vector);
            self.lemma_slot_index_bounds();
        }
        let base_index: usize = self.base_address.base_table_index();
        let n = self.device_base_addresses.len();
        proof {
            assert(self.spec_devices().len() <= 256);
        }
        let ghost t0: Seq<TranslationTableDescriptor> = table@;
        let mut i: usize = 0;
        while i < n
            invariant
                i <= n,
                n == self.spec_devices().len(),
                n <= 256,
                base_index < 4096,
                t0.len() == 4096,
                self.wf(),
                self.fits(),
                table.wf(),
                attributes@ == DEVICE_ATTRIBUTES,
                base_index == self.spec_base() >> 20,
                forall|a: int, j: int|
                    0 <= a < self.spec_devices().len() && 0 <= j < 16 ==> 0 <= #[trigger] self.spec_slot_index(a, j) < 4096,
                forall|a: int, b: int|
                    0 <= a < i && 0 <= b < 15 ==> table@[self.spec_slot_index(a, b)]@
                        == spec_device_section_word(self.spec_devices()[a], b),
                forall|idx: int|
                    0 <= idx < 4096 && !self.spec_written_before(i as int, 0, idx) ==> table@[idx]
                        == t0[idx],
            decreases n - i,
        {
            let frame: u8 = self.device_base_addresses[i];
            let mut j: usize = 0;
            while j < SECTIONS_PER_SLOT
                invariant
                    i < n,
                    j <= 15,
                    n == self.spec_devices().len(),
                    n <= 256,
                    base_index < 4096,
                    t0.len() == 4096,
                    self.wf(),
                    self.fits(),
                    table.wf(),
                    attributes@ == DEVICE_ATTRIBUTES,
                    base_index == self.spec_base() >> 20,
                    frame == self.spec_devices()[i as int],
                    forall|a: int, b: int|
                        0 <= a < self.spec_devices().len() && 0 <= b < 16 ==> 0
                            <= #[trigger] self.spec_slot_index(a, b) < 4096,
                    forall|a: int, b: int|
                        0 <= a < i && 0 <= b < 15 ==> table@[self.spec_slot_index(a, b)]@
                            == spec_device_section_word(self.spec_devices()[a], b),
                    forall|b: int|
                        0 <= b < j ==> table@[self.spec_slot_index(i as int, b)]@
                            == spec_device_section_word(self.spec_devices()[i as int], b),
                    forall|idx: int|
                        0 <= idx < 4096 && !self.spec_written_before(i as int, j as int, idx)
                            ==> table@[idx] == t0[idx],
                decreases 15 - j,
            {
                let pa: u32 = ((frame as u32) << 24) | ((j as u32) << 20);
                proof {
                    let f: u32 = frame as u32;
                    let ju: u32 = j as u32;
                    assert(f <= 255 && ju < 15 ==> ((f << 24) | (ju << 20)) & 0xf_ffff == 0) by (
                    bit_vector);
                }
                let descriptor = match TranslationTableDescriptor::new(
                    TranslationTableType::Section,
                    PhysicalAddress::new(pa),
                    attributes,
                ) {
                    Ok(d) => d,
                    Err(e) => {
                        return Err(e);
                    },
                };
                let index: usize = base_index + i * 16 + j;
                proof {
                    assert(index == self.spec_slot_index(i as int, j as int));
                    assert(0 <= self.spec_slot_index(i as int, j as int) < 4096);
                }
                let ghost table_pre: Seq<TranslationTableDescriptor> = table@;
                table.set_entry(index, descriptor);
                proof {
                    assert(descriptor@ == spec_device_section_word(
                        self.spec_devices()[i as int],
                        j as int,
                    ));
                    assert forall|idx: int|
                        0 <= idx < 4096 && !self.spec_written_before(
                            i as int,
                            j as int + 1,
                            idx,
                        ) implies table@[idx] == t0[idx] by {
                        if idx == index {
                            assert(self.spec_written_before(i as int, j as int + 1, idx));
                        } else {
                            if self.spec_written_before(i as int, j as int, idx) {
                                let (a, b): (int, int) = choose|a: int, b: int|
                                    0 <= a <= i as int && 0 <= b < 15 && (a < i as int || b
                                        < j as int) && idx == self.spec_slot_index(a, b);
                                assert(self.spec_written_before(i as int, j as int + 1, idx));
                            }
                            assert(table@[idx] == table_pre[idx]);
                        }
                    }
                }
                j = j + 1;
            }
            proof {
                assert forall|idx: int|
                    0 <= idx < 4096 && !self.spec_written_before(
                        i as int + 1,
                        0,
                        idx,
                    ) implies table@[idx] == t0[idx] by {
                    if self.spec_written_before(i as int, 15, idx) {
                        let (a, b): (int, int) = choose|a: int, b: int|
                            0 <= a <= i as int && 0 <= b < 15 && (a < i as int || b < 15) && idx
                                == self.spec_slot_index(a, b);
                        assert(self.spec_written_before(i as int + 1, 0, idx));
                    }
                }
            }
            i = i + 1;
        }
        proof {
            assert forall|idx: int|
                0 <= idx < 4096 && !self.spec_is_mapped_index(idx) implies table@[idx]
                == t0[idx] by {
                if self.spec_written_before(n as int, 0, idx) {
                    let (a, b): (int, int) = choose|a: int, b: int|
                        0 <= a <= n as int && 0 <= b < 15 && (a < n as int || b < 0) && idx
                            == self.spec_slot_index(a, b);
                    assert(self.spec_is_mapped_index(idx));
                }
            }
        }
        Ok(())
    }
}

/// Law: after the device mapping is installed, the hardware's section walk
/// of the virtual address `lookup` returns resolves back to the queried
/// physical address.  This holds for every physical address whose 16MB
/// frame is in the device list and whose offset inside the frame lies in
/// the 15MB the mapping covers; the table is any first-level table whose
/// device slots hold the words `do_mapping` installs.
pub proof fn lemma_lookup_resolves(
    m: DeviceVmemMapper,
    table: Seq<TranslationTableDescriptor>,
    phys: u32,
)
    requires
        m.wf(),
        m.fits(),
        table.len() == 4096,
        forall|i: int, j: int|
            0 <= i < m.spec_devices().len() && 0 <= j < 15 ==> table[
                #[trigger] m.spec_slot_index(i, j)
            ]@ == spec_device_section_word(m.spec_devices()[i], j),
        spec_position(m.spec_devices(), (phys >> 24) as u8) is Some,
        (phys >> 20) & 0xf < 15,
    ensures
        ({
            let i = spec_position(m.spec_devices(), (phys >> 24) as u8)->Some_0;
            let virt = (m.spec_base() + i * 0x100_0000 + (phys & 0x00ff_ffff)) as u32;
            spec_section_walk(table, virt) == Some(phys)
        }),
{
    let frame: u8 = (phys >> 24) as u8;
    lemma_position_in_list(m.spec_devices(), frame);
    let i = spec_position(m.spec_devices(), frame)->Some_0;
    let b: u32 = m.spec_base();
    let p: u32 = phys;
    assert(b & 0x00ff_ffff == 0 ==> (b >> 20) == (b >> 24) * 16 && b == (b >> 24) * 0x100_0000 && (b
        >> 24) < 256) by (bit_vector);
    assert(m.spec_devices().len() <= 256);
    assert(i < 256);
    let iu: u32 = i as u32;
    assert(p & 0x00ff_ffff <= 0xff_ffff) by (bit_vector);
    assert(b + i * 0x100_0000 + (p & 0x00ff_ffff) <= u32::MAX);
    let virt: u32 = (b + i * 0x100_0000 + (p & 0x00ff_ffff)) as u32;
    let ju: u32 = (p >> 20) & 0xf;
    assert((b & 0x00ff_ffff == 0 && iu < 256 && virt == b + iu * 0x100_0000 + (p & 0x00ff_ffff))
        ==> (virt >> 20 == (b >> 20) + iu * 16 + ((p >> 20) & 0xf)) && (virt & 0xf_ffff == p
        & 0xf_ffff)) by (bit_vector);
    let j = ju as int;
    assert(virt >> 20 == m.spec_slot_index(i, j));
    assert(table[m.spec_slot_index(i, j)]@ == spec_device_section_word(m.spec_devices()[i], j));
    let f: u32 = frame as u32;
    let addr: u32 = (f << 24) | (ju << 20);
    assert(f <= 255 && ju < 16 ==> ((f << 24) | (ju << 20)) & 0xf_ffff == 0) by (bit_vector);
    assert(0x410u32 & 0x000b_fdfd == 0x410) by (bit_vector);
    lemma_table_descriptor_roundtrip(TranslationTableType::Section, addr, DEVICE_ATTRIBUTES);
    let word = spec_device_section_word(frame, j);
    assert(word == addr | crate::attributes::spec_encode_table_attrs(
        DEVICE_ATTRIBUTES,
        TranslationTableType::Section,
    ));
    assert(spec_table_type_of(word) is Section);
    assert(word & !0xf_ffffu32 == addr);
    assert(f == p >> 24 && ju == ((p >> 20) & 0xf) ==> (((f << 24) | (ju << 20)) | (p & 0xf_ffff))
        == p) by (bit_vector);
    assert(f == p >> 24) by (bit_vector)
        requires
            f == ((p >> 24) as u8) as u32,
    ;
    assert(spec_section_walk(table, virt) == Some(phys));
}

} // verus!
