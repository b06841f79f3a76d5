//! Memory-service handlers: the callbacks the circuit model fires when it
//! needs the modeled memory to supply or absorb a value.
//!
//! Each handler routes the access through the bus dispatcher.  A handler
//! that returns `None` tells the caller to leave its output untouched (an
//! unmapped no-op).  Unsupported byte-lane masks are recorded as
//! recoverable failures and the access is dropped.

use vstd::prelude::*;

use crate::bus::{
    bus_read_kind_spec, bus_read_spec, bus_write_effect, bus_write_kind_effect,
    read_mask_trans_spec, spec_swap_bytes, write_mask_trans_spec, DeviceKind, Mask,
};
use crate::dispatch::{record_spec, SimContext, SimError};

verus! {

/// The address window the direct-memory read handler serves.
pub open spec fn dram_read_range(addr: u32) -> bool {
    (0x8010_0000 <= addr <= 0x801f_ffff) || (0x8000_0000 <= addr <= 0x8000_3fff)
}

/// The address window the direct-memory write handler serves (half-open).
pub open spec fn dram_write_range(addr: u32) -> bool {
    0x8010_0000 <= addr < 0x801f_ffff
}

/// Width encoding used by the direct-memory handlers.
pub open spec fn dram_mask_spec(code: u32) -> Option<Mask> {
    if code == 0 {
        Some(Mask::Byte)
    } else if code == 1 {
        Some(Mask::Half)
    } else if code == 2 {
        Some(Mask::Word)
    } else {
        None
    }
}

fn dram_mask(code: u32) -> (r: Option<Mask>)
    ensures
        r == dram_mask_spec(code),
{
    if code == 0 {
        Some(Mask::Byte)
    } else if code == 1 {
        Some(Mask::Half)
    } else if code == 2 {
        Some(Mask::Word)
    } else {
        None
    }
}

/// What the direct-memory write handler asks the outer harness to do.
#[derive(Clone, Copy, Debug, PartialEq, Eq, Structural)]
pub enum DramNotice {
    /// Nothing beyond the handler's own effect.
    Quiet,
    /// The character-output port was written: print the character.
    PutChar(u32),
    /// The timer control address was armed: start the free-running timer.
    TimerStart,
}

impl SimContext {
    /// Word read at the word-aligned address, for the static RAM port.
    pub fn sram_read(&self, addr: u32) -> (r: Option<u32>)
        ensures
            r == bus_read_spec(self.bus, addr & !0x3u32, Mask::Word),
    {
        let aligned: u32 = addr & !0x3u32;
        self.bus.read(aligned, Mask::Word)
    }

    /// Masked write routed by address: the byte-lane mask is translated
    /// and the shifted data handed to the serving device.  An unsupported
    /// mask is recorded and the access dropped.
    pub fn write_by_addr(&mut self, addr: u32, data: u32, mask: u32)
        ensures
            final(self).pipe == old(self).pipe,
            final(self).regfile == old(self).regfile,
            final(self).times == old(self).times,
            (match read_mask_trans_spec(data, mask) {
                None => final(self).bus == old(self).bus && final(self).pending == record_spec(
                    old(self).pending,
                    SimError::UnknownMask,
                ),
                Some((d2, m)) => bus_write_effect(old(self).bus, final(self).bus, addr, d2, m)
                    && final(self).pending == old(self).pending,
            }),
    {
        match crate::bus::read_mask_trans(data, mask) {
            None => self.record(SimError::UnknownMask),
            Some((d2, m)) => self.bus.write(addr, d2, m),
        }
    }

    /// Word read at the word-aligned address from the device named `kind`.
    pub fn read_by_name(&self, kind: DeviceKind, addr: u32) -> (r: Option<u32>)
        ensures
            r == bus_read_kind_spec(self.bus, kind, addr & !0x3u32, Mask::Word),
    {
        let aligned: u32 = addr & !0x3u32;
        self.bus.read_kind(kind, aligned, Mask::Word)
    }

    /// Write of `len` bytes to the device named `kind`.  An unsupported
    /// length is recorded and the access dropped.
    pub fn write_by_name(&mut self, kind: DeviceKind, addr: u32, data: u32, len: u32)
        ensures
            final(self).pipe == old(self).pipe,
            final(self).regfile == old(self).regfile,
            final(self).times == old(self).times,
            (match write_mask_trans_spec(len) {
                None => final(self).bus == old(self).bus && final(self).pending == record_spec(
                    old(self).pending,
                    SimError::UnknownMask,
                ),
                Some(m) => bus_write_kind_effect(old(self).bus, final(self).bus, kind, addr, data, m)
                    && final(self).pending == old(self).pending,
            }),
    {
        match crate::bus::write_mask_trans(len) {
            None => self.record(SimError::UnknownMask),
            Some(m) => self.bus.write_kind(kind, addr, data, m),
        }
    }

    /// Flash read: a word-aligned fetch whose bytes come back in reversed
    /// order, as the flash part delivers them.
    pub fn flash_read(&self, addr: u32) -> (r: Option<u32>)
        ensures
            r == (match bus_read_kind_spec(self.bus, DeviceKind::Flash, addr & !0x3u32, Mask::Word) {
                None => None::<u32>,
                Some(w) => Some(spec_swap_bytes(w)),
            }),
    {
        match self.read_by_name(DeviceKind::Flash, addr) {
            None => None,
            Some(w) => Some(crate::bus::swap_word_bytes(w)),
        }
    }

    /// Mask-ROM read: a plain word-aligned fetch.
    pub fn mrom_read(&self, addr: u32) -> (r: Option<u32>)
        ensures
            r == bus_read_kind_spec(self.bus, DeviceKind::Mrom, addr & !0x3u32, Mask::Word),
    {
        self.read_by_name(DeviceKind::Mrom, addr)
    }

    /// Pseudo-static RAM write: the part expects its data pre-shifted into
    /// the high lanes for half and word lengths.
    pub fn psram_write(&mut self, addr: u32, data: u32, len: u32)
        ensures
            final(self).pipe == old(self).pipe,
            final(self).regfile == old(self).regfile,
            final(self).times == old(self).times,
            ({
                let d2 = if len == 2 {
                    data << 8u32
                } else if len == 4 {
                    data << 16u32
                } else {
                    data
                };
                match write_mask_trans_spec(len) {
                    None => final(self).bus == old(self).bus && final(self).pending == record_spec(
                        old(self).pending,
                        SimError::UnknownMask,
                    ),
                    Some(m) => bus_write_kind_effect(
                        old(self).bus,
                        final(self).bus,
                        DeviceKind::Psram,
                        addr,
                        d2,
                        m,
                    ) && final(self).pending == old(self).pending,
                }
            }),
    {
        let d2: u32 = if len == 2 {
            data << 8u32
        } else if len == 4 {
            data << 16u32
        } else {
            data
        };
        self.write_by_name(DeviceKind::Psram, addr, d2, len)
    }

    /// Pseudo-static RAM read: a plain word-aligned fetch.
    pub fn psram_read(&self, addr: u32) -> (r: Option<u32>)
        ensures
            r == bus_read_kind_spec(self.bus, DeviceKind::Psram, addr & !0x3u32, Mask::Word),
    {
        self.read_by_name(DeviceKind::Psram, addr)
    }

    /// Synchronous DRAM write of `len` bytes.
    pub fn sdram_write(&mut self, addr: u32, data: u32, len: u32)
        ensures
            final(self).pipe == old(self).pipe,
            final(self).regfile == old(self).regfile,
            final(self).times == old(self).times,
            (match write_mask_trans_spec(len) {
                None => final(self).bus == old(self).bus && final(self).pending == record_spec(
                    old(self).pending,
                    SimError::UnknownMask,
                ),
                Some(m) => bus_write_kind_effect(
                    old(self).bus,
                    final(self).bus,
                    DeviceKind::Sdram,
                    addr,
                    data,
                    m,
                ) && final(self).pending == old(self).pending,
            }),
    {
        self.write_by_name(DeviceKind::Sdram, addr, data, len)
    }

    /// Synchronous DRAM read: a half-word fetch at the raw address.
    pub fn sdram_read(&self, addr: u32) -> (r: Option<u32>)
        ensures
            r == bus_read_kind_spec(self.bus, DeviceKind::Sdram, addr, Mask::Half),
    {
        self.bus.read_kind(DeviceKind::Sdram, addr, Mask::Half)
    }

    /// Video RAM write: a word routed by address.
    pub fn vga_write(&mut self, addr: u32, data: u32)
        ensures
            final(self).pipe == old(self).pipe,
            final(self).regfile == old(self).regfile,
            final(self).times == old(self).times,
            final(self).pending == old(self).pending,
            bus_write_effect(old(self).bus, final(self).bus, addr, data, Mask::Word),
    {
        self.bus.write(addr, data, Mask::Word)
    }

    /// Video RAM read of the pixel at column `x`, row `y` of the 640-wide
    /// frame buffer.
    pub fn vga_read(&self, x: u32, y: u32) -> (r: Option<u32>)
        requires
            (y * 640 + x) * 4 <= u32::MAX,
        ensures
            r == bus_read_kind_spec(
                self.bus,
                DeviceKind::Vga,
                (((y * 640 + x) * 4) as u32) & !0x3u32,
                Mask::Word,
            ),
    {
        let addr: u32 = (y * 640 + x) * 4;
        self.read_by_name(DeviceKind::Vga, addr)
    }

    /// Instruction-ROM read: served only inside the boot window; any other
    /// address leaves the circuit's buffer untouched.
    pub fn irom_read(&self, addr: u32) -> (r: Option<u32>)
        ensures
            (0x8000_0000 <= addr < 0x8000_3fff) ==> r == bus_read_spec(self.bus, addr, Mask::Word),
            !(0x8000_0000 <= addr < 0x8000_3fff) ==> r is None,
    {
        if addr < 0x8000_0000 || addr >= 0x8000_3fff {
            return None;
        }
        self.bus.read(addr, Mask::Word)
    }

    /// Direct-memory read with explicit device quirks: one address is a
    /// designated hole, one exposes the free-running timer's elapsed
    /// microseconds (supplied by the caller, since only the harness can
    /// read the clock), and only the two configured windows reach memory.
    /// An unsupported width code is recorded and nothing is read.
    pub fn dram_read(&mut self, addr: u32, mask_code: u32, elapsed_micros: u32) -> (r: Option<u32>)
        ensures
            final(self).pipe == old(self).pipe,
            final(self).regfile == old(self).regfile,
            final(self).bus == old(self).bus,
            final(self).times == old(self).times,
            addr == 0x8014_0000 ==> r is None && final(self).pending == old(self).pending,
            addr == 0x8020_0050 ==> r == Some(elapsed_micros) && final(self).pending == old(self).pending,
            addr != 0x8014_0000 && addr != 0x8020_0050 && !dram_read_range(addr) ==> r is None
                && final(self).pending == old(self).pending,
            addr != 0x8014_0000 && addr != 0x8020_0050 && dram_read_range(addr) ==> (
            match dram_mask_spec(mask_code) {
                None => r is None && final(self).pending == record_spec(
                    old(self).pending,
                    SimError::UnknownMask,
                ),
                Some(m) => r == bus_read_spec(old(self).bus, addr, m) && final(self).pending == old(self).pending,
            }),
    {
        if addr == 0x8014_0000 {
            return None;
        }
        if addr == 0x8020_0050 {
            return Some(elapsed_micros);
        }
        let in_range: bool = (0x8010_0000 <= addr && addr <= 0x801f_ffff) || (0x8000_0000 <= addr
            && addr <= 0x8000_3fff);
        if !in_range {
            return None;
        }
        match dram_mask(mask_code) {
            None => {
                self.record(SimError::UnknownMask);
                None
            },
            Some(m) => self.bus.read(addr, m),
        }
    }

    /// Direct-memory write with explicit device quirks: one address is the
    /// character-output port (the harness prints the character), one arms
    /// or ignores the free-running timer, and only the configured window
    /// reaches memory.  An unsupported width code is recorded and the
    /// access dropped.
    pub fn dram_write(&mut self, addr: u32, mask_code: u32, data: u32) -> (n: DramNotice)
        ensures
            final(self).pipe == old(self).pipe,
            final(self).regfile == old(self).regfile,
            final(self).times == old(self).times,
            addr == 0x8014_0000 ==> n == DramNotice::PutChar(data) && final(self).bus == old(self).bus && final(self).pending == old(self).pending,
            addr == 0x8020_0050 ==> n == (if data == 0x8000_0000 {
                DramNotice::TimerStart
            } else {
                DramNotice::Quiet
            }) && final(self).bus == old(self).bus && final(self).pending == old(self).pending,
            addr != 0x8014_0000 && addr != 0x8020_0050 && !dram_write_range(addr) ==> n
                == DramNotice::Quiet && final(self).bus == old(self).bus && final(self).pending
                == old(self).pending,
            addr != 0x8014_0000 && addr != 0x8020_0050 && dram_write_range(addr) ==> n
                == DramNotice::Quiet && (match dram_mask_spec(mask_code) {
                None => final(self).bus == old(self).bus && final(self).pending == record_spec(
                    old(self).pending,
                    SimError::UnknownMask,
                ),
                Some(m) => bus_write_effect(old(self).bus, final(self).bus, addr, data, m) && final(self).pending == old(self).pending,
            }),
    {
        if addr == 0x8014_0000 {
            return DramNotice::PutChar(data);
        }
        if addr == 0x8020_0050 {
            if data == 0x8000_0000 {
                return DramNotice::TimerStart;
            }
            return DramNotice::Quiet;
        }
        if !(0x8010_0000 <= addr && addr < 0x801f_ffff) {
            return DramNotice::Quiet;
        }
        match dram_mask(mask_code) {
            None => {
                self.record(SimError::UnknownMask);
            },
            Some(m) => self.bus.write(addr, data, m),
        }
        DramNotice::Quiet
    }
}

} // verus!
