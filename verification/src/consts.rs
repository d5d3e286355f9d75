//! Hardware constants of the target SoC: peripheral base addresses, DMA
//! channel policy values, and the register bit layouts the driver programs.

use vstd::prelude::*;

verus! {

/// CPU-visible base of the memory-mapped peripherals.
pub const ARM_IO_BASE: u32 = 0x3F000000;

/// Peripheral base as seen from the DMA engine's bus.
pub const GPU_IO_BASE: u32 = 0x7E000000;

/// Alias through which the DMA engine addresses system memory.
pub const GPU_MEM_BASE: u32 = 0xC0000000;

/// Base of the DMA controller's register block.
pub const ARM_DMA_BASE: u32 = ARM_IO_BASE + 0x7000;

/// Global interrupt-status register of the DMA controller.
pub const ARM_DMA_INT_STATUS: u32 = ARM_DMA_BASE + 0xFE0;

/// Global channel-enable register of the DMA controller.
pub const ARM_DMA_ENABLE: u32 = ARM_DMA_BASE + 0xFF0;

/// Highest channel index the allocation policy may hand out.
pub const DMA_CHANNEL_MAX: u32 = 12;

/// Bits that select an explicit channel index in an allocation request.
pub const DMA_CHANNEL__MASK: u32 = 0x0F;

/// Request for any normal channel.
pub const DMA_CHANNEL_NORMAL: u32 = 0x10;

/// Request for any lite (or normal) channel.
pub const DMA_CHANNEL_LITE: u32 = 0x20;

/// Largest transfer length, in bytes, a lite DMA channel accepts.
pub const TXFR_LEN_MAX_LITE: u32 = 0xFFFF;

// Transfer-information bits of a DMA control block.
pub const TI_PERMAP_SHIFT: u32 = 16;
pub const TI_BURST_LENGTH_SHIFT: u32 = 12;
pub const TI_SRC_WIDTH: u32 = 1 << 9;
pub const TI_SRC_INC: u32 = 1 << 8;
pub const TI_DEST_DREQ: u32 = 1 << 6;
pub const TI_WAIT_RESP: u32 = 1 << 3;
pub const TI_INTEN: u32 = 1 << 0;

/// Peripheral DREQ line of the PWM device (transfer-request pacing source).
pub const DREQ_SOURCE_PWM: u32 = 5;

pub const DEFAULT_BURST_LENGTH: u32 = 0;

// Control/status register bits of a DMA channel.
pub const CS_RESET: u32 = 1 << 31;
pub const CS_WAIT_FOR_OUTSTANDING_WRITES: u32 = 1 << 28;
pub const CS_PANIC_PRIORITY_SHIFT: u32 = 20;
pub const CS_PRIORITY_SHIFT: u32 = 16;
pub const CS_ERROR: u32 = 1 << 8;
pub const CS_INT: u32 = 1 << 2;
pub const CS_ACTIVE: u32 = 1 << 0;

pub const DEFAULT_PANIC_PRIORITY: u32 = 15;
pub const DEFAULT_PRIORITY: u32 = 1;

/// Base of the PWM peripheral's register block.
pub const ARM_PWM_BASE: u32 = ARM_IO_BASE + 0x20C000;

pub const ARM_PWM_CTL: u32 = ARM_PWM_BASE + 0x00;
pub const ARM_PWM_DMAC: u32 = ARM_PWM_BASE + 0x08;
pub const ARM_PWM_RNG1: u32 = ARM_PWM_BASE + 0x10;
pub const ARM_PWM_FIF1: u32 = ARM_PWM_BASE + 0x18;
pub const ARM_PWM_RNG2: u32 = ARM_PWM_BASE + 0x20;

// PWM control register bits.
pub const ARM_PWM_CTL_PWEN1: u32 = 1 << 0;
pub const ARM_PWM_CTL_RPTL1: u32 = 1 << 2;
pub const ARM_PWM_CTL_USEF1: u32 = 1 << 5;
pub const ARM_PWM_CTL_CLRF1: u32 = 1 << 6;
pub const ARM_PWM_CTL_PWEN2: u32 = 1 << 8;
pub const ARM_PWM_CTL_RPTL2: u32 = 1 << 10;
pub const ARM_PWM_CTL_USEF2: u32 = 1 << 13;

// PWM DMA-control register layout.
pub const ARM_PWM_DMAC_ENAB: u32 = 1 << 31;
pub const ARM_PWM_DMAC_PANIC__SHIFT: u32 = 8;
pub const ARM_PWM_DMAC_DREQ__SHIFT: u32 = 0;

/// Frequency of the clock feeding the PWM peripheral, in Hz.
pub const CLOCK_FREQ: u32 = 500000000;

/// Divider applied to that clock for PWM operation.
pub const CLOCK_DIVIDER: u32 = 2;

} // verus!
