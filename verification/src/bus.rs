//! The bus dispatcher: byte-lane mask translation, address-range routing,
//! and the byte-addressed backing stores of the modeled devices.
//!
//! A masked sub-word access arrives as a word-aligned transaction plus a
//! 4-bit byte-lane mask.  The mask is translated to an access width and a
//! lane shift; write data is right-shifted by the lane shift before it is
//! handed to the backing store, and a read always returns a word-aligned
//! 4-byte fetch that the caller re-shifts.  Accesses outside every
//! configured address interval are deliberately silent no-ops: unmapped
//! regions are modeled as void rather than raising.

use vstd::prelude::*;

verus! {

/// Access width of one bus transaction.
#[derive(Clone, Copy, Debug, PartialEq, Eq, Structural)]
pub enum Mask {
    Byte,
    Half,
    Word,
}

/// The named backing devices of the bus device table.
#[derive(Clone, Copy, Debug, PartialEq, Eq, Structural)]
pub enum DeviceKind {
    Sram,
    Flash,
    Mrom,
    Psram,
    Sdram,
    Vga,
}

pub open spec fn width(m: Mask) -> int {
    match m {
        Mask::Byte => 1,
        Mask::Half => 2,
        Mask::Word => 4,
    }
}

/// Byte count of one access of width `m`.
pub fn mask_width(m: Mask) -> (w: usize)
    ensures
        w == width(m),
{
    match m {
        Mask::Byte => 1,
        Mask::Half => 2,
        Mask::Word => 4,
    }
}

/// The byte in lane `sh / 8` of `d` (with `sh` one of 0, 8, 16, 24).
pub open spec fn lane_byte(d: u32, sh: u32) -> u8 {
    (((d >> sh) & 0xff) as u8)
}

fn byte_of(d: u32, sh: u32) -> (b: u8)
    requires
        sh == 0 || sh == 8 || sh == 16 || sh == 24,
    ensures
        b == lane_byte(d, sh),
{
    let v: u32 = (d >> sh) & 0xff;
    proof {
        assert(v < 256) by (bit_vector)
            requires
                v == (d >> sh) & 0xff,
        ;
    }
    v as u8
}

/// The little-endian value of the `width(m)` bytes at `off`, zero-extended
/// to a word.
pub open spec fn read_val(s: Seq<u8>, off: int, m: Mask) -> u32 {
    match m {
        Mask::Byte => s[off] as u32,
        Mask::Half => (s[off] as u32) | ((s[off + 1] as u32) << 8u32),
        Mask::Word => (s[off] as u32) | ((s[off + 1] as u32) << 8u32) | ((s[off + 2] as u32)
            << 16u32) | ((s[off + 3] as u32) << 24u32),
    }
}

/// `s` with the `width(m)` bytes starting at `off` replaced by the
/// little-endian bytes of `data`; every other byte keeps its prior value.
pub open spec fn write_bytes(s: Seq<u8>, off: int, data: u32, m: Mask) -> Seq<u8> {
    match m {
        Mask::Byte => s.update(off, lane_byte(data, 0)),
        Mask::Half => s.update(off, lane_byte(data, 0)).update(off + 1, lane_byte(data, 8)),
        Mask::Word => s.update(off, lane_byte(data, 0)).update(off + 1, lane_byte(data, 8)).update(
            off + 2,
            lane_byte(data, 16),
        ).update(off + 3, lane_byte(data, 24)),
    }
}

/// Byte-lane mask translation for masked write accesses: the data is
/// right-shifted into the low lanes and the access width is the number of
/// set lanes.  Only the seven contiguous lane patterns are supported; any
/// other mask violates the bus contract.
pub open spec fn read_mask_trans_spec(data: u32, mask: u32) -> Option<(u32, Mask)> {
    if mask == 0b0001 {
        Some((data, Mask::Byte))
    } else if mask == 0b0010 {
        Some(((data >> 8u32), Mask::Byte))
    } else if mask == 0b0100 {
        Some(((data >> 16u32), Mask::Byte))
    } else if mask == 0b1000 {
        Some(((data >> 24u32), Mask::Byte))
    } else if mask == 0b0011 {
        Some((data, Mask::Half))
    } else if mask == 0b1100 {
        Some(((data >> 16u32), Mask::Half))
    } else if mask == 0b1111 {
        Some((data, Mask::Word))
    } else {
        None
    }
}

/// Lane shift of a supported byte-lane mask, in bits.
pub open spec fn mask_shift(mask: u32) -> u32 {
    if mask == 0b0010 {
        8u32
    } else if mask == 0b0100 || mask == 0b1100 {
        16u32
    } else if mask == 0b1000 {
        24u32
    } else {
        0u32
    }
}

/// The lane bits (unshifted field) covered by a supported byte-lane mask.
pub open spec fn mask_lane_bits(mask: u32) -> u32 {
    if mask == 0b0011 || mask == 0b1100 {
        0xffffu32
    } else if mask == 0b1111 {
        0xffffffffu32
    } else {
        0xffu32
    }
}

/// Translates a 4-bit byte-lane mask into the right-shifted write data and
/// the access width; `None` for an unsupported mask.
pub fn read_mask_trans(data: u32, mask: u32) -> (r: Option<(u32, Mask)>)
    ensures
        r == read_mask_trans_spec(data, mask),
{
    if mask == 0b0001 {
        Some((data, Mask::Byte))
    } else if mask == 0b0010 {
        Some((data >> 8u32, Mask::Byte))
    } else if mask == 0b0100 {
        Some((data >> 16u32, Mask::Byte))
    } else if mask == 0b1000 {
        Some((data >> 24u32, Mask::Byte))
    } else if mask == 0b0011 {
        Some((data, Mask::Half))
    } else if mask == 0b1100 {
        Some((data >> 16u32, Mask::Half))
    } else if mask == 0b1111 {
        Some((data, Mask::Word))
    } else {
        None
    }
}

pub open spec fn write_mask_trans_spec(len: u32) -> Option<Mask> {
    if len == 1 {
        Some(Mask::Byte)
    } else if len == 2 {
        Some(Mask::Half)
    } else if len == 4 {
        Some(Mask::Word)
    } else {
        None
    }
}

/// Translates a byte-length into an access width; `None` for an
/// unsupported length.
pub fn write_mask_trans(len: u32) -> (r: Option<Mask>)
    ensures
        r == write_mask_trans_spec(len),
{
    if len == 1 {
        Some(Mask::Byte)
    } else if len == 2 {
        Some(Mask::Half)
    } else if len == 4 {
        Some(Mask::Word)
    } else {
        None
    }
}

/// The word with its byte order reversed (flash reads return byte-swapped
/// words).
pub open spec fn spec_swap_bytes(w: u32) -> u32 {
    ((w >> 24u32) & 0xff) | (((w >> 16u32) & 0xff) << 8u32) | (((w >> 8u32) & 0xff) << 16u32) | ((w
        & 0xff) << 24u32)
}

#[verifier::when_used_as_spec(spec_swap_bytes)]
pub fn swap_word_bytes(w: u32) -> (r: u32)
    ensures
        r == spec_swap_bytes(w),
{
    ((w >> 24u32) & 0xff) | (((w >> 16u32) & 0xff) << 8u32) | (((w >> 8u32) & 0xff) << 16u32) | ((w
        & 0xff) << 24u32)
}

/// One configured backing device: a named kind, the base address of its
/// half-open interval, and its byte-addressed backing store.
pub struct Device {
    pub kind: DeviceKind,
    pub base: u32,
    pub mem: Vec<u8>,
}

pub open spec fn dev_contains(d: Device, addr: u32) -> bool {
    d.base <= addr < d.base + d.mem@.len()
}

/// Index of the first device from position `i` whose interval contains
/// `addr`.
pub open spec fn find_dev_from(devs: Seq<Device>, addr: u32, i: int) -> Option<int>
    decreases devs.len() - i,
{
    if i < 0 || i >= devs.len() {
        None
    } else if dev_contains(devs[i], addr) {
        Some(i)
    } else {
        find_dev_from(devs, addr, i + 1)
    }
}

pub open spec fn find_dev(devs: Seq<Device>, addr: u32) -> Option<int> {
    find_dev_from(devs, addr, 0)
}

/// Index of the first device of kind `kind` from position `i`.
pub open spec fn find_kind_from(devs: Seq<Device>, kind: DeviceKind, i: int) -> Option<int>
    decreases devs.len() - i,
{
    if i < 0 || i >= devs.len() {
        None
    } else if devs[i].kind == kind {
        Some(i)
    } else {
        find_kind_from(devs, kind, i + 1)
    }
}

pub open spec fn find_kind(devs: Seq<Device>, kind: DeviceKind) -> Option<int> {
    find_kind_from(devs, kind, 0)
}

impl Device {
    /// A device of kind `kind` at base address `base` with `size` zeroed
    /// bytes of backing store.
    pub fn new(kind: DeviceKind, base: u32, size: usize) -> (d: Self)
        ensures
            d.kind == kind,
            d.base == base,
            d.mem@.len() == size,
            forall|i: int| 0 <= i < size ==> d.mem@[i] == 0u8,
    {
        Device { kind, base, mem: vec![0u8; size] }
    }

    /// Little-endian read of `width(m)` bytes at byte offset `off`.
    pub fn read_at(&self, off: usize, m: Mask) -> (r: u32)
        requires
            off + width(m) <= self.mem@.len(),
        ensures
            r == read_val(self.mem@, off as int, m),
    {
        let _n: usize = self.mem.len();
        match m {
            Mask::Byte => self.mem[off] as u32,
            Mask::Half => (self.mem[off] as u32) | ((self.mem[off + 1] as u32) << 8u32),
            Mask::Word => (self.mem[off] as u32) | ((self.mem[off + 1] as u32) << 8u32) | ((
            self.mem[off + 2] as u32) << 16u32) | ((self.mem[off + 3] as u32) << 24u32),
        }
    }

    /// Little-endian write of the low `width(m)` bytes of `data` at byte
    /// offset `off`; every other byte keeps its prior value.
    pub fn write_at(&mut self, off: usize, data: u32, m: Mask)
        requires
            off + width(m) <= old(self).mem@.len(),
        ensures
            final(self).kind == old(self).kind,
            final(self).base == old(self).base,
            final(self).mem@ == write_bytes(old(self).mem@, off as int, data, m),
    {
        let _n: usize = self.mem.len();
        match m {
            Mask::Byte => {
                self.mem[off] = byte_of(data, 0);
            },
            Mask::Half => {
                self.mem[off] = byte_of(data, 0);
                self.mem[off + 1] = byte_of(data, 8);
            },
            Mask::Word => {
                self.mem[off] = byte_of(data, 0);
                self.mem[off + 1] = byte_of(data, 8);
                self.mem[off + 2] = byte_of(data, 16);
                self.mem[off + 3] = byte_of(data, 24);
            },
        }
    }
}

/// What a routed read returns: the first device whose interval contains
/// `addr` serves it, provided the access fits inside the device; otherwise
/// the access is an unmapped no-op.
pub open spec fn bus_read_spec(b: BusSpace, addr: u32, m: Mask) -> Option<u32> {
    match find_dev(b.devices@, addr) {
        None => None,
        Some(i) => {
            let d = b.devices@[i];
            let off = addr - d.base;
            if off + width(m) <= d.mem@.len() {
                Some(read_val(d.mem@, off, m))
            } else {
                None
            }
        },
    }
}

/// Relates the device table after a routed write to the table before it:
/// only the serving device's bytes change, and only the addressed lanes of
/// them; an unmapped or ill-fitting access changes nothing.
pub open spec fn bus_write_effect(
    b0: BusSpace,
    b1: BusSpace,
    addr: u32,
    data: u32,
    m: Mask,
) -> bool {
    match find_dev(b0.devices@, addr) {
        None => b1 == b0,
        Some(i) => {
            let d = b0.devices@[i];
            let off = addr - d.base;
            if off + width(m) <= d.mem@.len() {
                &&& b1.devices@.len() == b0.devices@.len()
                &&& forall|j: int|
                    0 <= j < b0.devices@.len() && j != i ==> b1.devices@[j] == b0.devices@[j]
                &&& b1.devices@[i].kind == d.kind
                &&& b1.devices@[i].base == d.base
                &&& b1.devices@[i].mem@ == write_bytes(d.mem@, off, data, m)
            } else {
                b1 == b0
            }
        },
    }
}

/// What a by-name read returns: the device of kind `kind` serves it,
/// provided `addr` falls inside its interval and the access fits.
pub open spec fn bus_read_kind_spec(b: BusSpace, kind: DeviceKind, addr: u32, m: Mask) -> Option<
    u32,
> {
    match find_kind(b.devices@, kind) {
        None => None,
        Some(i) => {
            let d = b.devices@[i];
            if d.base <= addr && addr - d.base + width(m) <= d.mem@.len() {
                Some(read_val(d.mem@, addr - d.base, m))
            } else {
                None
            }
        },
    }
}

/// Relates the device table after a by-name write to the table before it.
pub open spec fn bus_write_kind_effect(
    b0: BusSpace,
    b1: BusSpace,
    kind: DeviceKind,
    addr: u32,
    data: u32,
    m: Mask,
) -> bool {
    match find_kind(b0.devices@, kind) {
        None => b1 == b0,
        Some(i) => {
            let d = b0.devices@[i];
            if d.base <= addr && addr - d.base + width(m) <= d.mem@.len() {
                &&& b1.devices@.len() == b0.devices@.len()
                &&& forall|j: int|
                    0 <= j < b0.devices@.len() && j != i ==> b1.devices@[j] == b0.devices@[j]
                &&& b1.devices@[i].kind == d.kind
                &&& b1.devices@[i].base == d.base
                &&& b1.devices@[i].mem@ == write_bytes(d.mem@, addr - d.base, data, m)
            } else {
                b1 == b0
            }
        },
    }
}

/// The bus device table plus the backing stores it routes to.  The table
/// (kinds and intervals) is configured once at simulator start and is
/// read-only afterwards; only the stores' contents change.
pub struct BusSpace {
    pub devices: Vec<Device>,
}

impl BusSpace {
    pub fn new() -> (b: Self)
        ensures
            b.devices@.len() == 0,
    {
        BusSpace { devices: Vec::new() }
    }

    /// Appends a device of kind `kind` at base address `base` with `size`
    /// zeroed bytes of backing store.
    pub fn add_device(&mut self, kind: DeviceKind, base: u32, size: usize)
        ensures
            final(self).devices@.len() == old(self).devices@.len() + 1,
            forall|j: int|
                0 <= j < old(self).devices@.len() ==> final(self).devices@[j] == old(
                    self,
                ).devices@[j],
            ({
                let d = final(self).devices@[old(self).devices@.len() as int];
                d.kind == kind && d.base == base && d.mem@.len() == size && (forall|i: int|
                    0 <= i < size ==> d.mem@[i] == 0u8)
            }),
    {
        self.devices.push(Device::new(kind, base, size));
    }

    fn find_device(&self, addr: u32) -> (r: Option<usize>)
        ensures
            (match r {
                Some(i) => i < self.devices@.len() && dev_contains(self.devices@[i as int], addr)
                    && find_dev(self.devices@, addr) == Some(i as int),
                None => find_dev(self.devices@, addr) is None,
            }),
    {
        let n: usize = self.devices.len();
        let mut i: usize = 0;
        while i < n
            invariant
                i <= n,
                n == self.devices@.len(),
                find_dev(self.devices@, addr) == find_dev_from(self.devices@, addr, i as int),
            decreases n - i,
        {
            let d = &self.devices[i];
            if d.base <= addr {
                let off: u32 = addr - d.base;
                if (off as usize) < d.mem.len() {
                    return Some(i);
                }
            }
            i = i + 1;
        }
        None
    }

    fn find_device_by_kind(&self, kind: DeviceKind) -> (r: Option<usize>)
        ensures
            (match r {
                Some(i) => i < self.devices@.len() && self.devices@[i as int].kind == kind
                    && find_kind(self.devices@, kind) == Some(i as int),
                None => find_kind(self.devices@, kind) is None,
            }),
    {
        let n: usize = self.devices.len();
        let mut i: usize = 0;
        while i < n
            invariant
                i <= n,
                n == self.devices@.len(),
                find_kind(self.devices@, kind) == find_kind_from(self.devices@, kind, i as int),
            decreases n - i,
        {
            if self.devices[i].kind == kind {
                return Some(i);
            }
            i = i + 1;
        }
        None
    }

    /// Routed read: the first device whose interval contains `addr` serves
    /// the access; an unmapped or ill-fitting access returns `None`.
    pub fn read(&self, addr: u32, m: Mask) -> (r: Option<u32>)
        ensures
            r == bus_read_spec(*self, addr, m),
    {
        match self.find_device(addr) {
            None => None,
            Some(i) => {
                let d = &self.devices[i];
                let off: usize = (addr - d.base) as usize;
                let w: usize = mask_width(m);
                if w <= d.mem.len() && off <= d.mem.len() - w {
                    Some(d.read_at(off, m))
                } else {
                    None
                }
            },
        }
    }

    /// Routed write: the first device whose interval contains `addr` takes
    /// the access; an unmapped or ill-fitting access is a silent no-op.
    pub fn write(&mut self, addr: u32, data: u32, m: Mask)
        ensures
            bus_write_effect(*old(self), *final(self), addr, data, m),
    {
        match self.find_device(addr) {
            None => {},
            Some(i) => {
                let base: u32 = self.devices[i].base;
                let len: usize = self.devices[i].mem.len();
                let off: usize = (addr - base) as usize;
                let w: usize = mask_width(m);
                if w <= len && off <= len - w {
                    let d = &mut self.devices[i];
                    d.write_at(off, data, m);
                }
            },
        }
    }

    /// By-name read: the device of kind `kind` serves the access if `addr`
    /// falls inside its interval; otherwise `None`.
    pub fn read_kind(&self, kind: DeviceKind, addr: u32, m: Mask) -> (r: Option<u32>)
        ensures
            r == bus_read_kind_spec(*self, kind, addr, m),
    {
        match self.find_device_by_kind(kind) {
            None => None,
            Some(i) => {
                let d = &self.devices[i];
                let w: usize = mask_width(m);
                if d.base <= addr {
                    let off: u32 = addr - d.base;
                    if w <= d.mem.len() && (off as usize) <= d.mem.len() - w {
                        Some(d.read_at(off as usize, m))
                    } else {
                        None
                    }
                } else {
                    None
                }
            },
        }
    }

    /// By-name write: the device of kind `kind` takes the access if `addr`
    /// falls inside its interval; otherwise a silent no-op.
    pub fn write_kind(&mut self, kind: DeviceKind, addr: u32, data: u32, m: Mask)
        ensures
            bus_write_kind_effect(*old(self), *final(self), kind, addr, data, m),
    {
        match self.find_device_by_kind(kind) {
            None => {},
            Some(i) => {
                let base: u32 = self.devices[i].base;
                let len: usize = self.devices[i].mem.len();
                let w: usize = mask_width(m);
                if base <= addr {
                    let off: u32 = addr - base;
                    if w <= len && (off as usize) <= len - w {
                        let d = &mut self.devices[i];
                        d.write_at(off as usize, data, m);
                    }
                }
            },
        }
    }
}

/// Mask round-trip: writing `data` through a supported byte-lane mask and
/// then reading back the whole aligned word recovers exactly the sub-word
/// bits that were written, while every untouched byte lane keeps its prior
/// value.  `base` is the aligned word offset; the write lands at
/// `base + mask_shift(mask) / 8`, the lane offset the mask selects.
pub proof fn lemma_mask_round_trip(s: Seq<u8>, base: int, data: u32, mask: u32)
    requires
        read_mask_trans_spec(data, mask) is Some,
        0 <= base,
        base + 4 <= s.len(),
    ensures
        ({
            match read_mask_trans_spec(data, mask) {
                None => true,
                Some((wdata, m)) => {
                    let sh = mask_shift(mask);
                    let lanes = mask_lane_bits(mask);
                    let s2 = write_bytes(s, base + (mask_shift(mask) as int) / 8, wdata, m);
                    let r = read_val(s2, base, Mask::Word);
                    let prior = read_val(s, base, Mask::Word);
                    &&& ((r >> sh) & lanes) == ((data >> sh) & lanes)
                    &&& (r & !(lanes << sh)) == (prior & !(lanes << sh))
                },
            }
        }),
{
    let b0: u8 = s[base];
    let b1: u8 = s[base + 1];
    let b2: u8 = s[base + 2];
    let b3: u8 = s[base + 3];
    if mask == 0b0001 {
        let nb: u8 = lane_byte(data, 0);
        assert((((nb as u32) | ((b1 as u32) << 8u32) | ((b2 as u32) << 16u32) | ((b3 as u32)
            << 24u32)) >> 0u32) & 0xffu32 == (data >> 0u32) & 0xffu32 && (((nb as u32) | ((
        b1 as u32) << 8u32) | ((b2 as u32) << 16u32) | ((b3 as u32) << 24u32)) & !(0xffu32 << 0u32))
            == (((b0 as u32) | ((b1 as u32) << 8u32) | ((b2 as u32) << 16u32) | ((b3 as u32)
            << 24u32)) & !(0xffu32 << 0u32))) by (bit_vector)
            requires
                nb == ((data >> 0u32) & 0xff) as u8,
        ;
    } else if mask == 0b0010 {
        let nb: u8 = lane_byte(data >> 8u32, 0);
        assert((((b0 as u32) | ((nb as u32) << 8u32) | ((b2 as u32) << 16u32) | ((b3 as u32)
            << 24u32)) >> 8u32) & 0xffu32 == (data >> 8u32) & 0xffu32 && (((b0 as u32) | ((
        nb as u32) << 8u32) | ((b2 as u32) << 16u32) | ((b3 as u32) << 24u32)) & !(0xffu32 << 8u32))
            == (((b0 as u32) | ((b1 as u32) << 8u32) | ((b2 as u32) << 16u32) | ((b3 as u32)
            << 24u32)) & !(0xffu32 << 8u32))) by (bit_vector)
            requires
                nb == (((data >> 8u32) >> 0u32) & 0xff) as u8,
        ;
    } else if mask == 0b0100 {
        let nb: u8 = lane_byte(data >> 16u32, 0);
        assert((((b0 as u32) | ((b1 as u32) << 8u32) | ((nb as u32) << 16u32) | ((b3 as u32)
            << 24u32)) >> 16u32) & 0xffu32 == (data >> 16u32) & 0xffu32 && (((b0 as u32) | ((
        b1 as u32) << 8u32) | ((nb as u32) << 16u32) | ((b3 as u32) << 24u32)) & !(0xffu32
            << 16u32)) == (((b0 as u32) | ((b1 as u32) << 8u32) | ((b2 as u32) << 16u32) | ((
        b3 as u32) << 24u32)) & !(0xffu32 << 16u32))) by (bit_vector)
            requires
                nb == (((data >> 16u32) >> 0u32) & 0xff) as u8,
        ;
    } else if mask == 0b1000 {
        let nb: u8 = lane_byte(data >> 24u32, 0);
        assert((((b0 as u32) | ((b1 as u32) << 8u32) | ((b2 as u32) << 16u32) | ((nb as u32)
            << 24u32)) >> 24u32) & 0xffu32 == (data >> 24u32) & 0xffu32 && (((b0 as u32) | ((
        b1 as u32) << 8u32) | ((b2 as u32) << 16u32) | ((nb as u32) << 24u32)) & !(0xffu32
            << 24u32)) == (((b0 as u32) | ((b1 as u32) << 8u32) | ((b2 as u32) << 16u32) | ((
        b3 as u32) << 24u32)) & !(0xffu32 << 24u32))) by (bit_vector)
            requires
                nb == (((data >> 24u32) >> 0u32) & 0xff) as u8,
        ;
    } else if mask == 0b0011 {
        let n0: u8 = lane_byte(data, 0);
        let n1: u8 = lane_byte(data, 8);
        assert((((n0 as u32) | ((n1 as u32) << 8u32) | ((b2 as u32) << 16u32) | ((b3 as u32)
            << 24u32)) >> 0u32) & 0xffffu32 == (data >> 0u32) & 0xffffu32 && (((n0 as u32) | ((
        n1 as u32) << 8u32) | ((b2 as u32) << 16u32) | ((b3 as u32) << 24u32)) & !(0xffffu32
            << 0u32)) == (((b0 as u32) | ((b1 as u32) << 8u32) | ((b2 as u32) << 16u32) | ((
        b3 as u32) << 24u32)) & !(0xffffu32 << 0u32))) by (bit_vector)
            requires
                n0 == ((data >> 0u32) & 0xff) as u8,
                n1 == ((data >> 8u32) & 0xff) as u8,
        ;
    } else if mask == 0b1100 {
        let n2: u8 = lane_byte(data >> 16u32, 0);
        let n3: u8 = lane_byte(data >> 16u32, 8);
        assert((((b0 as u32) | ((b1 as u32) << 8u32) | ((n2 as u32) << 16u32) | ((n3 as u32)
            << 24u32)) >> 16u32) & 0xffffu32 == (data >> 16u32) & 0xffffu32 && (((b0 as u32) | ((
        b1 as u32) << 8u32) | ((n2 as u32) << 16u32) | ((n3 as u32) << 24u32)) & !(0xffffu32
            << 16u32)) == (((b0 as u32) | ((b1 as u32) << 8u32) | ((b2 as u32) << 16u32) | ((
        b3 as u32) << 24u32)) & !(0xffffu32 << 16u32))) by (bit_vector)
            requires
                n2 == (((data >> 16u32) >> 0u32) & 0xff) as u8,
                n3 == (((data >> 16u32) >> 8u32) & 0xff) as u8,
        ;
    } else {
        let n0: u8 = lane_byte(data, 0);
        let n1: u8 = lane_byte(data, 8);
        let n2: u8 = lane_byte(data, 16);
        let n3: u8 = lane_byte(data, 24);
        assert((((n0 as u32) | ((n1 as u32) << 8u32) | ((n2 as u32) << 16u32) | ((n3 as u32)
            << 24u32)) >> 0u32) & 0xffffffffu32 == (data >> 0u32) & 0xffffffffu32 && (((n0 as u32)
            | ((n1 as u32) << 8u32) | ((n2 as u32) << 16u32) | ((n3 as u32) << 24u32)) & !(
        0xffffffffu32 << 0u32)) == (((b0 as u32) | ((b1 as u32) << 8u32) | ((b2 as u32) << 16u32)
            | ((b3 as u32) << 24u32)) & !(0xffffffffu32 << 0u32))) by (bit_vector)
            requires
                n0 == ((data >> 0u32) & 0xff) as u8,
                n1 == ((data >> 8u32) & 0xff) as u8,
                n2 == ((data >> 16u32) & 0xff) as u8,
                n3 == ((data >> 24u32) & 0xff) as u8,
        ;
    }
}

} // verus!
