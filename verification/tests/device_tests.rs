use pwm_sound::consts::{
    ARM_PWM_CTL_RPTL1, ARM_PWM_CTL_RPTL2, CS_ERROR, CS_INT, DMA_CHANNEL_LITE, DMA_CHANNEL_NORMAL,
};
use pwm_sound::device::{allocateDMAChannel, PWMSoundDevice, TPWMSoundState};
use pwm_sound::regs::{ARM_DMACHAN_CONBLK_AD, ARM_DMACHAN_CS, ARM_DMACHAN_NEXTCONBK, BUS_ADDRESS};

const INT_MASK: u32 = 1 << 12;

/// A constructed and initialized device with chunk size 8.
fn ready_device() -> PWMSoundDevice {
    let mut d = PWMSoundDevice::new(44100, 8);
    d.init(0x1000, 0x2000, 0x3000, 0x3020);
    d
}

#[test]
fn allocate_explicit_channel() {
    assert_eq!(allocateDMAChannel(3), 3);
}

#[test]
fn allocate_normal_channel_policy() {
    assert_eq!(allocateDMAChannel(DMA_CHANNEL_NORMAL), 6);
}

#[test]
fn allocate_lite_channel_policy() {
    assert_eq!(allocateDMAChannel(DMA_CHANNEL_LITE), 12);
}

#[test]
fn channel_register_addresses() {
    assert_eq!(ARM_DMACHAN_CS(6), 0x3F00_7600);
    assert_eq!(ARM_DMACHAN_CONBLK_AD(6), 0x3F00_7604);
    assert_eq!(ARM_DMACHAN_NEXTCONBK(6), 0x3F00_761C);
}

#[test]
fn bus_address_translation() {
    assert_eq!(BUS_ADDRESS(0x0000_3020), 0xC000_3020);
    assert_ne!(BUS_ADDRESS(0), 0);
}

#[test]
fn range_follows_sample_rate() {
    let d = PWMSoundDevice::new(44100, 2048);
    assert_eq!(d.GetRangeMin(), 0);
    assert_eq!(d.GetRangeMax(), 5668);
    assert_eq!(d.GetRange(), 5668);
}

#[test]
fn new_device_is_idle() {
    let d = PWMSoundDevice::new(44100, 8);
    assert!(!d.IsActive());
    assert_eq!(d.m_State, TPWMSoundState::PWMSoundIdle);
    assert_eq!(d.m_nDMAChannel, 12);
}

#[test]
fn init_links_descriptor_ring() {
    let d = ready_device();
    assert_eq!(d.m_ControlBlock0.nNextControlBlockAddress, 0xC000_3020);
    assert_eq!(d.m_ControlBlock1.nNextControlBlockAddress, 0xC000_3000);
    assert_eq!(d.m_ControlBlock0.nSourceAddress, 0xC000_1000);
    assert_eq!(d.m_ControlBlock1.nSourceAddress, 0xC000_2000);
    assert_eq!(d.m_ControlBlock0.nDestinationAddress, 0x7E20_C018);
    assert_eq!(d.m_DMABuffer0.len(), 8);
    assert_eq!(d.m_DMABuffer1.len(), 8);
}

#[test]
fn start_with_empty_source_fails() {
    let mut d = ready_device();
    assert!(!d.Start());
    assert!(!d.IsActive());
    assert_eq!(d.m_State, TPWMSoundState::PWMSoundIdle);
}

#[test]
fn cancel_when_not_running_is_noop() {
    let mut d = ready_device();
    d.Cancel();
    assert_eq!(d.m_State, TPWMSoundState::PWMSoundIdle);
}

#[test]
fn start_long_stream_runs() {
    let mut d = ready_device();
    // 6 stereo 16-bit frames: more than two chunks of 4 words
    let data = vec![0u8; 24];
    d.set_sound_data(data, 6, 2, 16);
    assert!(d.Start());
    assert!(d.IsActive());
    assert_eq!(d.m_State, TPWMSoundState::PWMSoundRunning);
    // both buffers were filled, the cursor is back on buffer 0
    assert_eq!(d.m_nNextBuffer, 0);
    assert_eq!(d.m_ControlBlock0.nTransferLength, 32);
    assert_eq!(d.m_ControlBlock1.nTransferLength, 16);
    // chain head armed at descriptor 0, engine set active
    assert_eq!(d.m_Regs.dma_chan_conblk_ad, 0xC000_3000);
    assert_ne!(d.m_Regs.dma_chan_cs & 1, 0);
}

#[test]
fn cancel_takes_effect_at_next_interrupt() {
    let mut d = ready_device();
    let data = vec![0u8; 24];
    d.set_sound_data(data, 6, 2, 16);
    assert!(d.Start());
    d.Cancel();
    assert_eq!(d.m_State, TPWMSoundState::PWMSoundCancelled);
    d.InterruptHandler(INT_MASK, CS_INT);
    assert_eq!(d.m_State, TPWMSoundState::PWMSoundTerminating);
    assert_eq!(d.m_Regs.dma_chan_nextconbk, 0);
    assert_ne!(d.m_Regs.pwm_ctl & (ARM_PWM_CTL_RPTL1 | ARM_PWM_CTL_RPTL2), 0);
    d.InterruptHandler(INT_MASK, CS_INT);
    assert_eq!(d.m_State, TPWMSoundState::PWMSoundIdle);
    assert!(!d.IsActive());
}

#[test]
fn error_interrupt_is_terminal() {
    let mut d = ready_device();
    let data = vec![0u8; 24];
    d.set_sound_data(data, 6, 2, 16);
    assert!(d.Start());
    d.InterruptHandler(INT_MASK, CS_INT | CS_ERROR);
    assert_eq!(d.m_State, TPWMSoundState::PWMSoundError);
    // a further completion without error status leaves the state alone
    d.InterruptHandler(INT_MASK, CS_INT);
    assert_eq!(d.m_State, TPWMSoundState::PWMSoundError);
    assert!(d.IsActive());
}

#[test]
fn running_interrupt_refills_consumed_buffer() {
    let mut d = ready_device();
    // 10 mono 8-bit frames: chunks of 4 frames each
    let data: Vec<u8> = (1..=10u8).collect();
    d.set_sound_data(data, 10, 1, 8);
    assert!(d.Start());
    assert_eq!(d.m_State, TPWMSoundState::PWMSoundRunning);
    assert_eq!(d.m_DMABuffer0[0], 16);
    assert_eq!(d.m_DMABuffer1[0], 80);
    // buffer 0 has been consumed: the interrupt refills it
    d.InterruptHandler(INT_MASK, CS_INT);
    assert_eq!(d.m_State, TPWMSoundState::PWMSoundRunning);
    assert_eq!(d.m_DMABuffer0[0], 144);
    assert_eq!(d.m_DMABuffer0[2], 160);
    assert_eq!(d.m_nNextBuffer, 1);
    // the stream is exhausted: the next interrupt terminates the chain
    d.InterruptHandler(INT_MASK, CS_INT);
    assert_eq!(d.m_State, TPWMSoundState::PWMSoundTerminating);
    assert_eq!(d.m_Regs.dma_chan_nextconbk, 0);
    d.InterruptHandler(INT_MASK, CS_INT);
    assert_eq!(d.m_State, TPWMSoundState::PWMSoundIdle);
}

#[test]
fn end_to_end_short_stream() {
    let mut d = PWMSoundDevice::new(44100, 8);
    d.init(0x1000, 0x2000, 0x3000, 0x3020);
    // 2 stereo 16-bit frames: 0, 32767, -32768, 0x1234
    let data = vec![0x00u8, 0x00, 0xFF, 0x7F, 0x00, 0x80, 0x34, 0x12];
    d.set_sound_data(data, 2, 2, 16);
    assert!(d.Start());
    // buffer 0 got the 4 words of the 2 frames
    assert_eq!(d.m_DMABuffer0[0], 0x800);
    assert_eq!(d.m_DMABuffer0[1], 0xFFF);
    assert_eq!(d.m_DMABuffer0[2], 0x000);
    assert_eq!(d.m_DMABuffer0[3], 0x923);
    assert_eq!(d.m_ControlBlock0.nTransferLength, 16);
    // the refill for buffer 1 found the stream exhausted: the chain is
    // pre-terminated and the device is already terminating
    assert_eq!(d.m_State, TPWMSoundState::PWMSoundTerminating);
    assert_eq!(d.m_Regs.dma_chan_nextconbk, 0);
    // the final completion drives the device back to idle
    d.InterruptHandler(INT_MASK, CS_INT);
    assert_eq!(d.m_State, TPWMSoundState::PWMSoundIdle);
}

#[test]
fn stop_pwm_clears_control() {
    let mut d = ready_device();
    d.StopPWM();
    assert_eq!(d.m_Regs.pwm_dmac, 0);
    assert_eq!(d.m_Regs.pwm_ctl, 0);
}
