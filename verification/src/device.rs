//! Playback device: descriptor pair, buffer cursor, lifecycle state machine,
//! and the interrupt entry point.

use vstd::prelude::*;
use crate::consts::{
    ARM_PWM_CTL_CLRF1, ARM_PWM_CTL_PWEN1, ARM_PWM_CTL_PWEN2, ARM_PWM_CTL_RPTL1, ARM_PWM_CTL_RPTL2,
    ARM_PWM_CTL_USEF1, ARM_PWM_CTL_USEF2, ARM_PWM_DMAC_DREQ__SHIFT, ARM_PWM_DMAC_ENAB,
    ARM_PWM_DMAC_PANIC__SHIFT, ARM_PWM_FIF1, CLOCK_DIVIDER, CLOCK_FREQ, CS_ACTIVE,
    CS_PANIC_PRIORITY_SHIFT, CS_PRIORITY_SHIFT, CS_RESET, CS_WAIT_FOR_OUTSTANDING_WRITES, CS_ERROR, CS_INT,
    DEFAULT_BURST_LENGTH, DEFAULT_PANIC_PRIORITY, DEFAULT_PRIORITY, DMA_CHANNEL_LITE,
    DMA_CHANNEL_MAX, DMA_CHANNEL_NORMAL, DMA_CHANNEL__MASK, DREQ_SOURCE_PWM, GPU_IO_BASE,
    TI_BURST_LENGTH_SHIFT, TI_DEST_DREQ, TI_INTEN, TI_PERMAP_SHIFT, TI_SRC_INC, TI_SRC_WIDTH,
    TI_WAIT_RESP, TXFR_LEN_MAX_LITE,
};
use crate::regs::{spec_bus_address, CleanAndInvalidateDataCacheRange, RegisterFile, BUS_ADDRESS};
use crate::sample::{sample16_to_word, PcmSource};

verus! {

/// Transfer-information word of both sound descriptors: paced by the PWM
/// DREQ line, incrementing 32-bit source reads, wait for write response,
/// interrupt on completion.
pub const TI_PWM_SOUND: u32 = (DREQ_SOURCE_PWM << TI_PERMAP_SHIFT) | (DEFAULT_BURST_LENGTH
    << TI_BURST_LENGTH_SHIFT) | TI_SRC_WIDTH | TI_SRC_INC | TI_DEST_DREQ | TI_WAIT_RESP | TI_INTEN;

/// Value programmed into the PWM DMA-control register when playback starts:
/// DMA enabled, panic and DREQ thresholds at 7.
pub const PWM_DMAC_START: u32 = ARM_PWM_DMAC_ENAB | (7 << ARM_PWM_DMAC_PANIC__SHIFT) | (7
    << ARM_PWM_DMAC_DREQ__SHIFT);

/// Value programmed into the channel's control/status register to start the
/// engine on the armed chain.
pub const CS_START: u32 = CS_WAIT_FOR_OUTSTANDING_WRITES | (DEFAULT_PANIC_PRIORITY
    << CS_PANIC_PRIORITY_SHIFT) | (DEFAULT_PRIORITY << CS_PRIORITY_SHIFT) | CS_ACTIVE;

/// Bus address of the PWM FIFO register, the destination of every transfer:
/// the FIFO's offset within the peripheral block, rebased onto the bus alias
/// of that block.
pub const PWM_FIFO_BUS_ADDR: u32 = (ARM_PWM_FIF1 & 0xFFFFFF) | GPU_IO_BASE;

/// PWM range derived from a sample rate: the peripheral clock after its
/// divider, divided by the sample rate, rounded to nearest.
pub open spec fn spec_pwm_range(sample_rate: u32) -> int {
    (CLOCK_FREQ as int / CLOCK_DIVIDER as int + sample_rate as int / 2) / sample_rate as int
}

/// Lifecycle state of the playback device. `Idle` is the initial state and
/// the only state from which playback may be started.
#[derive(Clone, Copy, Debug, PartialEq, Eq, Structural)]
pub enum TPWMSoundState {
    PWMSoundIdle,
    PWMSoundRunning,
    PWMSoundCancelled,
    PWMSoundTerminating,
    PWMSoundError,
}

/// Channel allocation policy: an explicit index is granted as requested; a
/// request for any normal channel yields index 6; a request for any lite
/// channel yields the highest available index.
#[allow(non_snake_case)]
pub fn allocateDMAChannel(nChannel: u32) -> (r: u32)
    ensures
        nChannel & !DMA_CHANNEL__MASK == 0 ==> r == nChannel,
        nChannel & !DMA_CHANNEL__MASK != 0 && nChannel == DMA_CHANNEL_NORMAL ==> r == 6,
        nChannel & !DMA_CHANNEL__MASK != 0 && nChannel != DMA_CHANNEL_NORMAL ==> r
            == DMA_CHANNEL_MAX,
{
    if (nChannel & !DMA_CHANNEL__MASK) == 0 {
        // explicit channel allocation
        nChannel
    } else {
        // arbitrary channel allocation
        if nChannel == DMA_CHANNEL_NORMAL {
            6u32
        } else {
            DMA_CHANNEL_MAX
        }
    }
}

/// One hardware transfer descriptor (control block), as the DMA engine reads
/// it from memory: what to copy, from where, to where, how much, and the bus
/// address of the descriptor to execute next (0 stops the chain).
pub struct TDMAControlBlock {
    pub nTransferInformation: u32,
    pub nSourceAddress: u32,
    pub nDestinationAddress: u32,
    pub nTransferLength: u32,
    pub n2DModeStride: u32,
    pub nNextControlBlockAddress: u32,
    pub nReserved0: u32,
    pub nReserved1: u32,
}

impl TDMAControlBlock {
    /// A descriptor with every field cleared.
    pub fn zeroed() -> (cb: TDMAControlBlock)
        ensures
            cb.nTransferInformation == 0,
            cb.nSourceAddress == 0,
            cb.nDestinationAddress == 0,
            cb.nTransferLength == 0,
            cb.n2DModeStride == 0,
            cb.nNextControlBlockAddress == 0,
            cb.nReserved0 == 0,
            cb.nReserved1 == 0,
    {
        TDMAControlBlock {
            nTransferInformation: 0,
            nSourceAddress: 0,
            nDestinationAddress: 0,
            nTransferLength: 0,
            n2DModeStride: 0,
            nNextControlBlockAddress: 0,
            nReserved0: 0,
            nReserved1: 0,
        }
    }

    /// Descriptor for the sound buffer at CPU address `nBufferAddr`: fixed
    /// transfer information, the buffer's bus address as source, the PWM
    /// FIFO as destination, and no successor yet.
    pub fn for_buffer(nBufferAddr: u32) -> (cb: TDMAControlBlock)
        ensures
            cb.nTransferInformation == TI_PWM_SOUND,
            cb.nSourceAddress == spec_bus_address(nBufferAddr),
            cb.nDestinationAddress == PWM_FIFO_BUS_ADDR,
            cb.nTransferLength == 0,
            cb.n2DModeStride == 0,
            cb.nNextControlBlockAddress == 0,
            cb.nReserved0 == 0,
            cb.nReserved1 == 0,
    {
        TDMAControlBlock {
            nTransferInformation: TI_PWM_SOUND,
            nSourceAddress: BUS_ADDRESS(nBufferAddr),
            nDestinationAddress: PWM_FIFO_BUS_ADDR,
            nTransferLength: 0,
            n2DModeStride: 0,
            nNextControlBlockAddress: 0,
            nReserved0: 0,
            nReserved1: 0,
        }
    }
}

/// The playback device: configuration, the two sample buffers with their
/// descriptors, the buffer cursor, the sample source, the lifecycle state,
/// and the model of the control registers the driver programs.
pub struct PWMSoundDevice {
    /// Words per refill; both sample buffers hold exactly this many words.
    pub m_nChunkSize: u32,
    /// PWM counter modulus derived from the sample rate.
    pub m_nRange: u32,
    /// Lifecycle state.
    pub m_State: TPWMSoundState,
    /// Whether the completion interrupt has been routed to this device.
    pub m_bIRQConnected: bool,
    /// The DMA channel the device was allocated.
    pub m_nDMAChannel: u32,
    /// Sample buffer 0.
    pub m_DMABuffer0: Vec<u32>,
    /// Sample buffer 1.
    pub m_DMABuffer1: Vec<u32>,
    /// Descriptor for buffer 0.
    pub m_ControlBlock0: TDMAControlBlock,
    /// Descriptor for buffer 1.
    pub m_ControlBlock1: TDMAControlBlock,
    /// CPU address of buffer 0's storage.
    pub m_nBufferAddr0: u32,
    /// CPU address of buffer 1's storage.
    pub m_nBufferAddr1: u32,
    /// CPU address of descriptor 0's storage (32-byte aligned).
    pub m_nControlBlockAddr0: u32,
    /// CPU address of descriptor 1's storage (32-byte aligned).
    pub m_nControlBlockAddr1: u32,
    /// Whether buffers and descriptors have been set up and linked.
    pub m_bSetup: bool,
    /// Which buffer (0 or 1) the next refill targets.
    pub m_nNextBuffer: u32,
    /// The PCM stream being played.
    pub m_Source: PcmSource,
    /// Last value programmed into each control register the driver owns.
    pub m_Regs: RegisterFile,
}

impl PWMSoundDevice {
    /// The descriptors form the closed two-element ring: each one's `next`
    /// is the other's bus address.
    pub open spec fn ring_linked(self) -> bool {
        &&& self.m_nControlBlockAddr0 != self.m_nControlBlockAddr1
        &&& self.m_ControlBlock0.nNextControlBlockAddress == spec_bus_address(
            self.m_nControlBlockAddr1,
        )
        &&& self.m_ControlBlock1.nNextControlBlockAddress == spec_bus_address(
            self.m_nControlBlockAddr0,
        )
    }

    /// Well-formedness of the device, established by `new` and preserved by
    /// every operation.
    pub open spec fn wf(self) -> bool {
        &&& self.m_nChunkSize > 0
        &&& self.m_nChunkSize % 2 == 0
        &&& 4 * self.m_nChunkSize <= TXFR_LEN_MAX_LITE
        &&& 256 <= self.m_nRange < 65536
        &&& self.m_nDMAChannel <= DMA_CHANNEL_MAX
        &&& self.m_nNextBuffer <= 1
        &&& self.m_Source.wf()
        &&& self.m_bSetup ==> self.ring_linked()
        &&& self.m_bSetup ==> self.m_DMABuffer0@.len() == self.m_nChunkSize
        &&& self.m_bSetup ==> self.m_DMABuffer1@.len() == self.m_nChunkSize
        &&& self.m_State != TPWMSoundState::PWMSoundIdle ==> self.m_bSetup
        &&& self.m_State == TPWMSoundState::PWMSoundTerminating
            ==> self.m_Regs.dma_chan_nextconbk == 0
    }

    /// Constructs the device for a sample rate (Hz) and a chunk size (words
    /// per refill, one word per stereo channel). The derived PWM range must
    /// fit the counter, and a chunk must fit a lite channel's transfer
    /// length.
    pub fn new(nSampleRate: u32, nChunkSize: u32) -> (d: PWMSoundDevice)
        requires
            nSampleRate > 0,
            nChunkSize > 0,
            nChunkSize % 2 == 0,
            4 * nChunkSize <= TXFR_LEN_MAX_LITE,
            256 <= spec_pwm_range(nSampleRate) < 65536,
        ensures
            d.wf(),
            d.m_nChunkSize == nChunkSize,
            d.m_nRange == spec_pwm_range(nSampleRate),
            d.m_State == TPWMSoundState::PWMSoundIdle,
            !d.m_bIRQConnected,
            !d.m_bSetup,
            d.m_nDMAChannel == DMA_CHANNEL_MAX,
            d.m_nNextBuffer == 0,
            d.m_Source.samples == 0,
    {
        assert(DMA_CHANNEL_LITE & !DMA_CHANNEL__MASK != 0) by (bit_vector);
        PWMSoundDevice {
            m_nChunkSize: nChunkSize,
            m_nRange: (CLOCK_FREQ / CLOCK_DIVIDER + nSampleRate / 2) / nSampleRate,
            m_State: TPWMSoundState::PWMSoundIdle,
            m_bIRQConnected: false,
            m_nDMAChannel: allocateDMAChannel(DMA_CHANNEL_LITE),
            m_DMABuffer0: Vec::new(),
            m_DMABuffer1: Vec::new(),
            m_ControlBlock0: TDMAControlBlock::zeroed(),
            m_ControlBlock1: TDMAControlBlock::zeroed(),
            m_nBufferAddr0: 0,
            m_nBufferAddr1: 0,
            m_nControlBlockAddr0: 0,
            m_nControlBlockAddr1: 0,
            m_bSetup: false,
            m_nNextBuffer: 0,
            m_Source: PcmSource::empty(),
            m_Regs: RegisterFile::new(),
        }
    }

    /// Smallest word value a sample may map to.
    #[allow(non_snake_case)]
    pub fn GetRangeMin(&self) -> (r: u32)
        ensures
            r == 0,
    {
        0
    }

    /// Largest word value a sample may map to: one below the PWM range.
    #[allow(non_snake_case)]
    pub fn GetRangeMax(&self) -> (r: u32)
        requires
            self.wf(),
        ensures
            r == self.m_nRange - 1,
    {
        self.m_nRange - 1
    }

    /// Same as [`Self::GetRangeMax`].
    #[allow(non_snake_case)]
    pub fn GetRange(&self) -> (r: u32)
        requires
            self.wf(),
        ensures
            r == self.m_nRange - 1,
    {
        self.GetRangeMax()
    }

    /// Requests cancellation: effective only while running, and deferred —
    /// the chain is stopped at the next completion interrupt, not
    /// immediately.
    #[allow(non_snake_case)]
    pub fn Cancel(&mut self)
        requires
            old(self).wf(),
        ensures
            final(self).wf(),
            old(self).m_State == TPWMSoundState::PWMSoundRunning ==> final(self).m_State
                == TPWMSoundState::PWMSoundCancelled,
            old(self).m_State != TPWMSoundState::PWMSoundRunning ==> final(self).m_State == old(
                self,
            ).m_State,
            *final(self) == (PWMSoundDevice { m_State: final(self).m_State, ..*old(self) }),
    {
        if self.m_State == TPWMSoundState::PWMSoundRunning {
            self.m_State = TPWMSoundState::PWMSoundCancelled;
        }
    }

    /// The device is active in every state but `Idle`.
    #[allow(non_snake_case)]
    pub fn IsActive(&self) -> (r: bool)
        ensures
            r == (self.m_State != TPWMSoundState::PWMSoundIdle),
    {
        if self.m_State != TPWMSoundState::PWMSoundIdle {
            true
        } else {
            false
        }
    }

    /// Starts the PWM peripheral: programs both channels' range and enables
    /// them in FIFO mode with the FIFO cleared.
    #[allow(non_snake_case)]
    fn RunPWM(&mut self)
        requires
            old(self).wf(),
        ensures
            final(self).wf(),
            *final(self) == (PWMSoundDevice {
                m_Regs: RegisterFile {
                    pwm_rng1: old(self).m_nRange,
                    pwm_rng2: old(self).m_nRange,
                    pwm_ctl: ARM_PWM_CTL_PWEN1 | ARM_PWM_CTL_USEF1 | ARM_PWM_CTL_PWEN2
                        | ARM_PWM_CTL_USEF2 | ARM_PWM_CTL_CLRF1,
                    ..old(self).m_Regs
                },
                ..*old(self)
            }),
    {
        self.m_Regs.pwm_rng1 = self.m_nRange;
        self.m_Regs.pwm_rng2 = self.m_nRange;
        self.m_Regs.pwm_ctl = ARM_PWM_CTL_PWEN1 | ARM_PWM_CTL_USEF1 | ARM_PWM_CTL_PWEN2
            | ARM_PWM_CTL_USEF2 | ARM_PWM_CTL_CLRF1;
    }

    /// Stops the PWM peripheral: disables its DMA pacing and both channels.
    #[allow(non_snake_case)]
    pub fn StopPWM(&mut self)
        requires
            old(self).wf(),
        ensures
            final(self).wf(),
            *final(self) == (PWMSoundDevice {
                m_Regs: RegisterFile { pwm_dmac: 0, pwm_ctl: 0, ..old(self).m_Regs },
                ..*old(self)
            }),
    {
        self.m_Regs.pwm_dmac = 0;
        self.m_Regs.pwm_ctl = 0;
    }

    /// Sets up both buffer/descriptor pairs, links the descriptors into the
    /// two-element ring, starts the PWM peripheral, and enables and resets
    /// the DMA channel. The caller supplies the CPU addresses of the two
    /// buffers' storage and of the two descriptors' storage; descriptor
    /// storage must be 32-byte aligned, as the engine requires.
    pub fn init(
        &mut self,
        nBufferAddr0: u32,
        nBufferAddr1: u32,
        nControlBlockAddr0: u32,
        nControlBlockAddr1: u32,
    )
        requires
            old(self).wf(),
            old(self).m_State == TPWMSoundState::PWMSoundIdle,
            nControlBlockAddr0 % 32 == 0,
            nControlBlockAddr1 % 32 == 0,
            nControlBlockAddr0 != nControlBlockAddr1,
        ensures
            final(self).wf(),
            final(self).m_bSetup,
            final(self).ring_linked(),
            final(self).m_State == TPWMSoundState::PWMSoundIdle,
            final(self).m_nChunkSize == old(self).m_nChunkSize,
            final(self).m_nRange == old(self).m_nRange,
            final(self).m_nDMAChannel == old(self).m_nDMAChannel,
            final(self).m_bIRQConnected == old(self).m_bIRQConnected,
            final(self).m_Source == old(self).m_Source,
            final(self).m_nNextBuffer == old(self).m_nNextBuffer,
            final(self).m_nBufferAddr0 == nBufferAddr0,
            final(self).m_nBufferAddr1 == nBufferAddr1,
            final(self).m_nControlBlockAddr0 == nControlBlockAddr0,
            final(self).m_nControlBlockAddr1 == nControlBlockAddr1,
            final(self).m_DMABuffer0@.len() == old(self).m_nChunkSize,
            final(self).m_DMABuffer1@.len() == old(self).m_nChunkSize,
            forall|i: int|
                0 <= i < old(self).m_nChunkSize ==> final(self).m_DMABuffer0@[i] == 0u32,
            forall|i: int|
                0 <= i < old(self).m_nChunkSize ==> final(self).m_DMABuffer1@[i] == 0u32,
            final(self).m_ControlBlock0.nTransferInformation == TI_PWM_SOUND,
            final(self).m_ControlBlock1.nTransferInformation == TI_PWM_SOUND,
            final(self).m_ControlBlock0.nSourceAddress == spec_bus_address(nBufferAddr0),
            final(self).m_ControlBlock1.nSourceAddress == spec_bus_address(nBufferAddr1),
            final(self).m_ControlBlock0.nDestinationAddress == PWM_FIFO_BUS_ADDR,
            final(self).m_ControlBlock1.nDestinationAddress == PWM_FIFO_BUS_ADDR,
            final(self).m_ControlBlock0.nTransferLength == 0,
            final(self).m_ControlBlock1.nTransferLength == 0,
            final(self).m_ControlBlock0.nNextControlBlockAddress == spec_bus_address(
                nControlBlockAddr1,
            ),
            final(self).m_ControlBlock1.nNextControlBlockAddress == spec_bus_address(
                nControlBlockAddr0,
            ),
            final(self).m_Regs == (RegisterFile {
                pwm_rng1: old(self).m_nRange,
                pwm_rng2: old(self).m_nRange,
                pwm_ctl: ARM_PWM_CTL_PWEN1 | ARM_PWM_CTL_USEF1 | ARM_PWM_CTL_PWEN2
                    | ARM_PWM_CTL_USEF2 | ARM_PWM_CTL_CLRF1,
                dma_enable: old(self).m_Regs.dma_enable | (1u32 << old(self).m_nDMAChannel),
                dma_chan_cs: CS_RESET,
                ..old(self).m_Regs
            }),
    {
        self.m_DMABuffer0 = zero_buffer(self.m_nChunkSize);
        self.m_DMABuffer1 = zero_buffer(self.m_nChunkSize);
        self.m_nBufferAddr0 = nBufferAddr0;
        self.m_nBufferAddr1 = nBufferAddr1;
        self.m_ControlBlock0 = TDMAControlBlock::for_buffer(nBufferAddr0);
        self.m_ControlBlock1 = TDMAControlBlock::for_buffer(nBufferAddr1);
        // close the descriptor ring
        self.m_ControlBlock0.nNextControlBlockAddress = BUS_ADDRESS(nControlBlockAddr1);
        self.m_ControlBlock1.nNextControlBlockAddress = BUS_ADDRESS(nControlBlockAddr0);
        self.m_nControlBlockAddr0 = nControlBlockAddr0;
        self.m_nControlBlockAddr1 = nControlBlockAddr1;
        self.m_bSetup = true;
        // start clock and PWM device
        self.RunPWM();
        // enable the DMA channel, then reset it; hardware clears the reset
        // bit when the reset has completed
        self.m_Regs.dma_enable = self.m_Regs.dma_enable | (1u32 << self.m_nDMAChannel);
        self.m_Regs.dma_chan_cs = CS_RESET;
    }

    /// Hands the device the PCM stream to play next: `nSamples` frames of
    /// `nChannels` channels at `nBitsPerSample` bits, starting at the first
    /// byte of `data`.
    pub fn set_sound_data(&mut self, data: Vec<u8>, nSamples: u32, nChannels: u32, nBits: u32)
        requires
            old(self).wf(),
            old(self).m_State == TPWMSoundState::PWMSoundIdle,
            nChannels == 1 || nChannels == 2,
            nBits == 8 || nBits == 16,
            nSamples * crate::sample::frame_bytes(nChannels, nBits) <= data@.len(),
        ensures
            final(self).wf(),
            final(self).m_Source.data@ == data@,
            final(self).m_Source.pos == 0,
            final(self).m_Source.samples == nSamples,
            final(self).m_Source.channels == nChannels,
            final(self).m_Source.bits == nBits,
            *final(self) == (PWMSoundDevice { m_Source: final(self).m_Source, ..*old(self) }),
    {
        self.m_Source = PcmSource::new(data, nSamples, nChannels, nBits);
    }

    /// Refills the buffer the cursor points at from the sample source and,
    /// on success, installs the transfer length in its descriptor, makes
    /// buffer and descriptor visible to the DMA engine, and flips the
    /// cursor. Returns false exactly when the stream was already exhausted,
    /// in which case nothing changes.
    #[allow(non_snake_case)]
    fn GetNextChunk(&mut self) -> (r: bool)
        requires
            old(self).wf(),
            old(self).m_bSetup,
        ensures
            final(self).wf(),
            r == (old(self).m_Source.samples > 0),
            final(self).m_State == old(self).m_State,
            final(self).m_Regs == old(self).m_Regs,
            final(self).m_nChunkSize == old(self).m_nChunkSize,
            final(self).m_nRange == old(self).m_nRange,
            final(self).m_nDMAChannel == old(self).m_nDMAChannel,
            final(self).m_bIRQConnected == old(self).m_bIRQConnected,
            final(self).m_bSetup == old(self).m_bSetup,
            final(self).m_nBufferAddr0 == old(self).m_nBufferAddr0,
            final(self).m_nBufferAddr1 == old(self).m_nBufferAddr1,
            final(self).m_nControlBlockAddr0 == old(self).m_nControlBlockAddr0,
            final(self).m_nControlBlockAddr1 == old(self).m_nControlBlockAddr1,
            final(self).m_ControlBlock0 == (TDMAControlBlock {
                nTransferLength: final(self).m_ControlBlock0.nTransferLength,
                ..old(self).m_ControlBlock0
            }),
            final(self).m_ControlBlock1 == (TDMAControlBlock {
                nTransferLength: final(self).m_ControlBlock1.nTransferLength,
                ..old(self).m_ControlBlock1
            }),
            final(self).m_Source.data@ == old(self).m_Source.data@,
            final(self).m_Source.channels == old(self).m_Source.channels,
            final(self).m_Source.bits == old(self).m_Source.bits,
            !r ==> final(self).m_DMABuffer0@ == old(self).m_DMABuffer0@,
            !r ==> final(self).m_DMABuffer1@ == old(self).m_DMABuffer1@,
            !r ==> final(self).m_nNextBuffer == old(self).m_nNextBuffer,
            !r ==> final(self).m_Source.pos == old(self).m_Source.pos,
            !r ==> final(self).m_Source.samples == 0,
            !r ==> final(self).m_ControlBlock0.nTransferLength == old(
                self,
            ).m_ControlBlock0.nTransferLength,
            !r ==> final(self).m_ControlBlock1.nTransferLength == old(
                self,
            ).m_ControlBlock1.nTransferLength,
            r ==> ({
                let n = crate::sample::words_for(
                    old(self).m_Source.samples,
                    old(self).m_nChunkSize,
                );
                &&& final(self).m_nNextBuffer == 1 - old(self).m_nNextBuffer
                &&& final(self).m_Source.samples == old(self).m_Source.samples - n / 2
                &&& final(self).m_Source.pos == old(self).m_Source.pos + (n / 2)
                    * crate::sample::frame_bytes(
                    old(self).m_Source.channels,
                    old(self).m_Source.bits,
                )
                &&& (old(self).m_nNextBuffer == 0 ==> {
                    &&& crate::sample::chunk_filled(
                        final(self).m_DMABuffer0@,
                        old(self).m_DMABuffer0@,
                        old(self).m_Source.data@,
                        old(self).m_Source.pos as int,
                        old(self).m_Source.channels,
                        old(self).m_Source.bits,
                        n,
                    )
                    &&& final(self).m_DMABuffer1@ == old(self).m_DMABuffer1@
                    &&& final(self).m_ControlBlock0.nTransferLength == 4 * n
                    &&& final(self).m_ControlBlock1.nTransferLength == old(
                        self,
                    ).m_ControlBlock1.nTransferLength
                })
                &&& (old(self).m_nNextBuffer == 1 ==> {
                    &&& crate::sample::chunk_filled(
                        final(self).m_DMABuffer1@,
                        old(self).m_DMABuffer1@,
                        old(self).m_Source.data@,
                        old(self).m_Source.pos as int,
                        old(self).m_Source.channels,
                        old(self).m_Source.bits,
                        n,
                    )
                    &&& final(self).m_DMABuffer0@ == old(self).m_DMABuffer0@
                    &&& final(self).m_ControlBlock1.nTransferLength == 4 * n
                    &&& final(self).m_ControlBlock0.nTransferLength == old(
                        self,
                    ).m_ControlBlock0.nTransferLength
                })
            }),
    {
        let nChunkSize = self.m_nChunkSize;
        let words: u32 = if self.m_nNextBuffer == 0 {
            self.m_Source.fill(&mut self.m_DMABuffer0, nChunkSize)
        } else {
            self.m_Source.fill(&mut self.m_DMABuffer1, nChunkSize)
        };
        if words == 0 {
            proof {
                let f = crate::sample::frame_bytes(self.m_Source.channels, self.m_Source.bits);
                assert(0 * f == 0) by (nonlinear_arith);
            }
            return false;
        }
        let nTransferLength: u32 = words * 4;
        assert(nTransferLength <= TXFR_LEN_MAX_LITE);
        if self.m_nNextBuffer == 0 {
            self.m_ControlBlock0.nTransferLength = nTransferLength;
            CleanAndInvalidateDataCacheRange(self.m_nBufferAddr0 as usize, nTransferLength);
            CleanAndInvalidateDataCacheRange(self.m_nControlBlockAddr0 as usize, 32);
        } else {
            self.m_ControlBlock1.nTransferLength = nTransferLength;
            CleanAndInvalidateDataCacheRange(self.m_nBufferAddr1 as usize, nTransferLength);
            CleanAndInvalidateDataCacheRange(self.m_nControlBlockAddr1 as usize, 32);
        }
        self.m_nNextBuffer = 1 - self.m_nNextBuffer;
        true
    }

    /// Starts playback. Fills buffer 0, and if the stream was already
    /// exhausted fails with the device left idle. Otherwise routes the
    /// interrupt, enables PWM DMA pacing, clears the repeat-last-word quirk
    /// bits, arms descriptor 0 as the chain head, sets the engine active,
    /// and fills buffer 1; if the stream ran out before a second chunk, the
    /// chain is pre-terminated and the device goes straight to
    /// `Terminating`.
    #[allow(non_snake_case)]
    pub fn Start(&mut self) -> (r: bool)
        requires
            old(self).wf(),
            old(self).m_bSetup,
            old(self).m_State == TPWMSoundState::PWMSoundIdle,
        ensures
            final(self).wf(),
            final(self).m_bSetup,
            r == (old(self).m_Source.samples > 0),
            // configuration, addresses and descriptor identity are kept
            final(self).m_nChunkSize == old(self).m_nChunkSize,
            final(self).m_nRange == old(self).m_nRange,
            final(self).m_nDMAChannel == old(self).m_nDMAChannel,
            final(self).m_nBufferAddr0 == old(self).m_nBufferAddr0,
            final(self).m_nBufferAddr1 == old(self).m_nBufferAddr1,
            final(self).m_nControlBlockAddr0 == old(self).m_nControlBlockAddr0,
            final(self).m_nControlBlockAddr1 == old(self).m_nControlBlockAddr1,
            final(self).m_Source.data@ == old(self).m_Source.data@,
            final(self).m_Source.channels == old(self).m_Source.channels,
            final(self).m_Source.bits == old(self).m_Source.bits,
            final(self).m_Regs.dma_enable == old(self).m_Regs.dma_enable,
            final(self).m_Regs.dma_int_status == old(self).m_Regs.dma_int_status,
            final(self).m_Regs.pwm_rng1 == old(self).m_Regs.pwm_rng1,
            final(self).m_Regs.pwm_rng2 == old(self).m_Regs.pwm_rng2,
            !r ==> final(self).m_State == TPWMSoundState::PWMSoundIdle,
            !r ==> final(self).m_nNextBuffer == 0,
            !r ==> final(self).m_Regs == old(self).m_Regs,
            !r ==> final(self).m_bIRQConnected == old(self).m_bIRQConnected,
            !r ==> final(self).m_DMABuffer0@ == old(self).m_DMABuffer0@,
            !r ==> final(self).m_DMABuffer1@ == old(self).m_DMABuffer1@,
            !r ==> final(self).m_Source.pos == old(self).m_Source.pos,
            !r ==> final(self).m_Source.samples == 0,
            // on success the device is armed and running (or already
            // terminating on a stream shorter than two chunks)
            r ==> final(self).m_bIRQConnected,
            r ==> final(self).m_Regs.pwm_dmac == PWM_DMAC_START,
            r ==> final(self).m_Regs.pwm_ctl == old(self).m_Regs.pwm_ctl & !(ARM_PWM_CTL_RPTL1
                | ARM_PWM_CTL_RPTL2),
            r ==> final(self).m_Regs.dma_chan_conblk_ad == spec_bus_address(
                old(self).m_nControlBlockAddr0,
            ),
            r ==> final(self).m_Regs.dma_chan_cs == CS_START,
            r ==> ({
                let n1 = crate::sample::words_for(
                    old(self).m_Source.samples,
                    old(self).m_nChunkSize,
                );
                &&& crate::sample::chunk_filled(
                    final(self).m_DMABuffer0@,
                    old(self).m_DMABuffer0@,
                    old(self).m_Source.data@,
                    old(self).m_Source.pos as int,
                    old(self).m_Source.channels,
                    old(self).m_Source.bits,
                    n1,
                )
                &&& final(self).m_ControlBlock0.nTransferLength == 4 * n1
            }),
            r && old(self).m_Source.samples > old(self).m_nChunkSize / 2 ==> ({
                let s1 = old(self).m_Source.samples - old(self).m_nChunkSize / 2;
                let p1 = old(self).m_Source.pos + (old(self).m_nChunkSize / 2)
                    * crate::sample::frame_bytes(
                    old(self).m_Source.channels,
                    old(self).m_Source.bits,
                );
                let n2 = crate::sample::words_for(s1 as u32, old(self).m_nChunkSize);
                &&& final(self).m_State == TPWMSoundState::PWMSoundRunning
                &&& final(self).m_nNextBuffer == 0
                &&& final(self).m_Regs.dma_chan_nextconbk == old(self).m_Regs.dma_chan_nextconbk
                &&& crate::sample::chunk_filled(
                    final(self).m_DMABuffer1@,
                    old(self).m_DMABuffer1@,
                    old(self).m_Source.data@,
                    p1,
                    old(self).m_Source.channels,
                    old(self).m_Source.bits,
                    n2,
                )
                &&& final(self).m_ControlBlock1.nTransferLength == 4 * n2
                &&& final(self).m_Source.samples == s1 - n2 / 2
            }),
            r && old(self).m_Source.samples <= old(self).m_nChunkSize / 2 ==> ({
                &&& final(self).m_State == TPWMSoundState::PWMSoundTerminating
                &&& final(self).m_nNextBuffer == 1
                &&& final(self).m_Regs.dma_chan_nextconbk == 0
                &&& final(self).m_DMABuffer1@ == old(self).m_DMABuffer1@
                &&& final(self).m_Source.samples == 0
            }),
    {
        // fill buffer 0
        self.m_nNextBuffer = 0;
        if !self.GetNextChunk() {
            return false;
        }
        self.m_State = TPWMSoundState::PWMSoundRunning;
        // connect IRQ (idempotent; the platform routes the channel's
        // completion interrupt to the interrupt entry point)
        if !self.m_bIRQConnected {
            self.m_bIRQConnected = true;
        }
        // enable PWM DMA operation
        self.m_Regs.pwm_dmac = PWM_DMAC_START;
        // switched on when playback stops to avoid clicks, switch it off here
        self.m_Regs.pwm_ctl = self.m_Regs.pwm_ctl & !(ARM_PWM_CTL_RPTL1 | ARM_PWM_CTL_RPTL2);
        // arm the chain head and start the DMA engine
        self.m_Regs.dma_chan_conblk_ad = BUS_ADDRESS(self.m_nControlBlockAddr0);
        self.m_Regs.dma_chan_cs = CS_START;
        // fill buffer 1
        if !self.GetNextChunk() {
            if self.m_State == TPWMSoundState::PWMSoundRunning {
                self.m_Regs.dma_chan_nextconbk = 0;
                self.m_State = TPWMSoundState::PWMSoundTerminating;
            }
        }
        true
    }

    /// Interrupt entry point, called once per completed descriptor with the
    /// values just read from the global interrupt-status register and the
    /// channel's control/status register. Acknowledges the interrupt, then:
    /// a transfer error is terminal (`Error`); a running device refills the
    /// consumed buffer, or — when the stream is exhausted or cancellation
    /// was requested — stops the chain after the in-flight buffer and turns
    /// on the repeat-last-word quirk bits to avoid an audible click; a
    /// terminating device has seen its final completion and returns to
    /// `Idle`.
    #[allow(non_snake_case)]
    pub fn InterruptHandler(&mut self, nIntStatus: u32, nCS: u32)
        requires
            old(self).wf(),
            old(self).m_State != TPWMSoundState::PWMSoundIdle,
            nIntStatus & (1u32 << old(self).m_nDMAChannel) != 0,
            nCS & CS_INT != 0,
        ensures
            final(self).wf(),
            // the interrupt is acknowledged: channel bit cleared in the
            // global status, CS written back to reset its interrupt flag
            final(self).m_Regs.dma_int_status == (1u32 << old(self).m_nDMAChannel),
            final(self).m_Regs.dma_chan_cs == nCS,
            // everything the handler never touches
            final(self).m_nChunkSize == old(self).m_nChunkSize,
            final(self).m_nRange == old(self).m_nRange,
            final(self).m_nDMAChannel == old(self).m_nDMAChannel,
            final(self).m_bIRQConnected == old(self).m_bIRQConnected,
            final(self).m_bSetup == old(self).m_bSetup,
            final(self).m_nBufferAddr0 == old(self).m_nBufferAddr0,
            final(self).m_nBufferAddr1 == old(self).m_nBufferAddr1,
            final(self).m_nControlBlockAddr0 == old(self).m_nControlBlockAddr0,
            final(self).m_nControlBlockAddr1 == old(self).m_nControlBlockAddr1,
            final(self).m_Source.data@ == old(self).m_Source.data@,
            final(self).m_Source.channels == old(self).m_Source.channels,
            final(self).m_Source.bits == old(self).m_Source.bits,
            final(self).m_Regs.dma_enable == old(self).m_Regs.dma_enable,
            final(self).m_Regs.dma_chan_conblk_ad == old(self).m_Regs.dma_chan_conblk_ad,
            final(self).m_Regs.pwm_rng1 == old(self).m_Regs.pwm_rng1,
            final(self).m_Regs.pwm_rng2 == old(self).m_Regs.pwm_rng2,
            final(self).m_Regs.pwm_dmac == old(self).m_Regs.pwm_dmac,
            // a hardware transfer error is terminal
            nCS & CS_ERROR != 0 ==> {
                &&& final(self).m_State == TPWMSoundState::PWMSoundError
                &&& final(self).m_nNextBuffer == old(self).m_nNextBuffer
                &&& final(self).m_Source.pos == old(self).m_Source.pos
                &&& final(self).m_Source.samples == old(self).m_Source.samples
                &&& final(self).m_DMABuffer0@ == old(self).m_DMABuffer0@
                &&& final(self).m_DMABuffer1@ == old(self).m_DMABuffer1@
                &&& final(self).m_Regs.dma_chan_nextconbk == old(self).m_Regs.dma_chan_nextconbk
                &&& final(self).m_Regs.pwm_ctl == old(self).m_Regs.pwm_ctl
            },
            // an error state never leaves Error, whatever the completion says
            old(self).m_State == TPWMSoundState::PWMSoundError ==> final(self).m_State
                == TPWMSoundState::PWMSoundError,
            nCS & CS_ERROR == 0 && old(self).m_State == TPWMSoundState::PWMSoundRunning && old(
                self,
            ).m_Source.samples > 0 ==> ({
                let n = crate::sample::words_for(
                    old(self).m_Source.samples,
                    old(self).m_nChunkSize,
                );
                &&& final(self).m_State == TPWMSoundState::PWMSoundRunning
                &&& final(self).m_nNextBuffer == 1 - old(self).m_nNextBuffer
                &&& final(self).m_Regs.dma_chan_nextconbk == old(self).m_Regs.dma_chan_nextconbk
                &&& final(self).m_Regs.pwm_ctl == old(self).m_Regs.pwm_ctl
                &&& final(self).m_Source.samples == old(self).m_Source.samples - n / 2
                &&& (old(self).m_nNextBuffer == 0 ==> crate::sample::chunk_filled(
                    final(self).m_DMABuffer0@,
                    old(self).m_DMABuffer0@,
                    old(self).m_Source.data@,
                    old(self).m_Source.pos as int,
                    old(self).m_Source.channels,
                    old(self).m_Source.bits,
                    n,
                ) && final(self).m_ControlBlock0.nTransferLength == 4 * n
                    && final(self).m_DMABuffer1@ == old(self).m_DMABuffer1@)
                &&& (old(self).m_nNextBuffer == 1 ==> crate::sample::chunk_filled(
                    final(self).m_DMABuffer1@,
                    old(self).m_DMABuffer1@,
                    old(self).m_Source.data@,
                    old(self).m_Source.pos as int,
                    old(self).m_Source.channels,
                    old(self).m_Source.bits,
                    n,
                ) && final(self).m_ControlBlock1.nTransferLength == 4 * n
                    && final(self).m_DMABuffer0@ == old(self).m_DMABuffer0@)
            }),
            // exhaustion while running, or a pending cancellation: stop the
            // chain after the in-flight buffer and terminate
            nCS & CS_ERROR == 0 && ((old(self).m_State == TPWMSoundState::PWMSoundRunning && old(
                self,
            ).m_Source.samples == 0) || old(self).m_State == TPWMSoundState::PWMSoundCancelled)
                ==> {
                &&& final(self).m_State == TPWMSoundState::PWMSoundTerminating
                &&& final(self).m_Regs.dma_chan_nextconbk == 0
                &&& final(self).m_Regs.pwm_ctl == old(self).m_Regs.pwm_ctl | (ARM_PWM_CTL_RPTL1
                    | ARM_PWM_CTL_RPTL2)
                &&& final(self).m_nNextBuffer == old(self).m_nNextBuffer
                &&& final(self).m_Source.pos == old(self).m_Source.pos
                &&& final(self).m_Source.samples == old(self).m_Source.samples
                &&& final(self).m_DMABuffer0@ == old(self).m_DMABuffer0@
                &&& final(self).m_DMABuffer1@ == old(self).m_DMABuffer1@
            },
            // the pre-armed stop has taken effect: back to Idle
            nCS & CS_ERROR == 0 && old(self).m_State == TPWMSoundState::PWMSoundTerminating ==> {
                &&& final(self).m_State == TPWMSoundState::PWMSoundIdle
                &&& final(self).m_Regs.dma_chan_nextconbk == old(self).m_Regs.dma_chan_nextconbk
                &&& final(self).m_Regs.pwm_ctl == old(self).m_Regs.pwm_ctl
                &&& final(self).m_nNextBuffer == old(self).m_nNextBuffer
                &&& final(self).m_Source.pos == old(self).m_Source.pos
                &&& final(self).m_Source.samples == old(self).m_Source.samples
                &&& final(self).m_DMABuffer0@ == old(self).m_DMABuffer0@
                &&& final(self).m_DMABuffer1@ == old(self).m_DMABuffer1@
            },
            nCS & CS_ERROR == 0 && old(self).m_State == TPWMSoundState::PWMSoundError ==> {
                &&& final(self).m_Regs.dma_chan_nextconbk == old(self).m_Regs.dma_chan_nextconbk
                &&& final(self).m_Regs.pwm_ctl == old(self).m_Regs.pwm_ctl
                &&& final(self).m_nNextBuffer == old(self).m_nNextBuffer
                &&& final(self).m_Source.pos == old(self).m_Source.pos
                &&& final(self).m_Source.samples == old(self).m_Source.samples
                &&& final(self).m_DMABuffer0@ == old(self).m_DMABuffer0@
                &&& final(self).m_DMABuffer1@ == old(self).m_DMABuffer1@
            },
    {
        let nIntMask: u32 = 1u32 << self.m_nDMAChannel;
        // acknowledge the channel interrupt
        self.m_Regs.dma_int_status = nIntMask;
        // writing the read value back resets the CS interrupt flag
        self.m_Regs.dma_chan_cs = nCS;
        if nCS & CS_ERROR != 0 {
            self.m_State = TPWMSoundState::PWMSoundError;
            return ;
        }
        let terminate: bool = if self.m_State == TPWMSoundState::PWMSoundRunning {
            !self.GetNextChunk()
        } else {
            self.m_State == TPWMSoundState::PWMSoundCancelled
        };
        if terminate {
            // stop the chain after the buffer now in flight
            self.m_Regs.dma_chan_nextconbk = 0;
            // avoid clicks
            self.m_Regs.pwm_ctl = self.m_Regs.pwm_ctl | (ARM_PWM_CTL_RPTL1 | ARM_PWM_CTL_RPTL2);
            self.m_State = TPWMSoundState::PWMSoundTerminating;
        } else if self.m_State == TPWMSoundState::PWMSoundTerminating {
            self.m_State = TPWMSoundState::PWMSoundIdle;
        }
    }
}

/// Law of the descriptor ring: once the device is set up, each descriptor's
/// `next` field holds the other descriptor's bus address — a closed
/// two-element cycle with both links nonzero, so the hardware walks the two
/// buffers strictly alternately — and this holds in particular whenever the
/// device is running. The ring in memory is never broken; stopping is
/// effected through the channel's next-control-block register, which holds 0
/// whenever the device is terminating, so the chain ends at the next
/// descriptor boundary.
pub proof fn lemma_descriptor_ring(d: PWMSoundDevice)
    requires
        d.wf(),
        d.m_bSetup,
    ensures
        d.m_ControlBlock0.nNextControlBlockAddress == spec_bus_address(d.m_nControlBlockAddr1),
        d.m_ControlBlock1.nNextControlBlockAddress == spec_bus_address(d.m_nControlBlockAddr0),
        d.m_ControlBlock0.nNextControlBlockAddress != 0,
        d.m_ControlBlock1.nNextControlBlockAddress != 0,
        d.m_State == TPWMSoundState::PWMSoundTerminating ==> d.m_Regs.dma_chan_nextconbk == 0,
{
    crate::regs::lemma_bus_address_nonzero(d.m_nControlBlockAddr0);
    crate::regs::lemma_bus_address_nonzero(d.m_nControlBlockAddr1);
}


/// A buffer of `n` words, all zero.
fn zero_buffer(n: u32) -> (v: Vec<u32>)
    ensures
        v@.len() == n,
        forall|i: int| 0 <= i < n ==> v@[i] == 0u32,
{
    let mut v: Vec<u32> = Vec::new();
    let mut k: u32 = 0;
    while k < n
        invariant
            k <= n,
            v@.len() == k,
            forall|i: int| 0 <= i < k ==> v@[i] == 0u32,
        decreases n - k,
    {
        v.push(0);
        k = k + 1;
    }
    v
}

} // verus!
