//! Register addressing and the driver's register-file model.
//!
//! The address functions compute the bus locations of the DMA channel
//! registers and translate CPU addresses into the alias the DMA engine uses.
//! [`RegisterFile`] records the last value the driver programmed into each
//! control register it owns; a platform layer mirrors every assignment with a
//! volatile write to the corresponding address. Volatile *status* values
//! (channel control/status, global interrupt status) are never read from this
//! model: they reach the driver as arguments of the interrupt entry point.

use vstd::prelude::*;
use crate::consts::{ARM_DMA_BASE, DMA_CHANNEL_MAX, GPU_MEM_BASE};

verus! {

/// Bus address a DMA descriptor or buffer must be referenced by, given its
/// CPU address: the cacheable-alias bits are replaced by the DMA engine's
/// memory alias.
pub open spec fn spec_bus_address(addr: u32) -> u32 {
    (addr & !0xC0000000u32) | GPU_MEM_BASE
}

/// A bus address is never zero, so it can always be distinguished from the
/// `next = 0` chain terminator.
pub proof fn lemma_bus_address_nonzero(addr: u32)
    ensures
        spec_bus_address(addr) != 0,
{
    assert(((addr & !0xC0000000u32) | 0xC0000000u32) != 0) by (bit_vector);
}

#[allow(non_snake_case)]
pub fn BUS_ADDRESS(addr: u32) -> (r: u32)
    ensures
        r == spec_bus_address(addr),
        r != 0,
{
    proof {
        lemma_bus_address_nonzero(addr);
    }
    (addr & !0xC0000000u32) | GPU_MEM_BASE
}

/// Address of a DMA channel's control/status register.
#[allow(non_snake_case)]
pub fn ARM_DMACHAN_CS(chan: u32) -> (r: u32)
    requires
        chan <= DMA_CHANNEL_MAX,
    ensures
        r == ARM_DMA_BASE + chan * 0x100,
{
    ARM_DMA_BASE + chan * 0x100 + 0x00
}

/// Address of a DMA channel's control-block-address register (the chain
/// head armed by software).
#[allow(non_snake_case)]
pub fn ARM_DMACHAN_CONBLK_AD(chan: u32) -> (r: u32)
    requires
        chan <= DMA_CHANNEL_MAX,
    ensures
        r == ARM_DMA_BASE + chan * 0x100 + 0x04,
{
    ARM_DMA_BASE + chan * 0x100 + 0x04
}

/// Address of a DMA channel's next-control-block register (writing 0 stops
/// the chain at the next descriptor boundary).
#[allow(non_snake_case)]
pub fn ARM_DMACHAN_NEXTCONBK(chan: u32) -> (r: u32)
    requires
        chan <= DMA_CHANNEL_MAX,
    ensures
        r == ARM_DMA_BASE + chan * 0x100 + 0x1C,
{
    ARM_DMA_BASE + chan * 0x100 + 0x1C
}

/// Cache-maintenance hook: after the CPU writes a buffer or descriptor and
/// before it becomes reachable by the DMA engine, the written range must be
/// cleaned to the point of coherency. On a target whose DMA alias is
/// coherent with the CPU caches this is a no-op; a platform with writeback
/// caches must supply the real operation in its own layer.
#[allow(non_snake_case)]
pub fn CleanAndInvalidateDataCacheRange(nAddress: usize, nLength: u32) {
    let _ = nAddress;
    let _ = nLength;
}

/// The control registers this driver programs, each holding the value most
/// recently written by the driver. Hardware never writes these particular
/// registers on its own, so the model is also what a read of them returns.
pub struct RegisterFile {
    /// Global DMA channel-enable register.
    pub dma_enable: u32,
    /// Global DMA interrupt-status register (write-one-to-clear).
    pub dma_int_status: u32,
    /// Control/status register of the device's channel (writes only; the
    /// live status is hardware-owned and arrives as an interrupt argument).
    pub dma_chan_cs: u32,
    /// Control-block-address register of the device's channel.
    pub dma_chan_conblk_ad: u32,
    /// Next-control-block register of the device's channel.
    pub dma_chan_nextconbk: u32,
    /// PWM control register.
    pub pwm_ctl: u32,
    /// PWM range register, channel 1.
    pub pwm_rng1: u32,
    /// PWM range register, channel 2.
    pub pwm_rng2: u32,
    /// PWM DMA-control register.
    pub pwm_dmac: u32,
}

impl RegisterFile {
    /// All registers as they stand before the driver has programmed
    /// anything.
    pub fn new() -> (r: RegisterFile)
        ensures
            r.dma_enable == 0,
            r.dma_int_status == 0,
            r.dma_chan_cs == 0,
            r.dma_chan_conblk_ad == 0,
            r.dma_chan_nextconbk == 0,
            r.pwm_ctl == 0,
            r.pwm_rng1 == 0,
            r.pwm_rng2 == 0,
            r.pwm_dmac == 0,
    {
        RegisterFile {
            dma_enable: 0,
            dma_int_status: 0,
            dma_chan_cs: 0,
            dma_chan_conblk_ad: 0,
            dma_chan_nextconbk: 0,
            pwm_ctl: 0,
            pwm_rng1: 0,
            pwm_rng2: 0,
            pwm_dmac: 0,
        }
    }
}

} // verus!
