//! Driver core for a PWM-based sound output device fed by a hardware DMA
//! engine, as found on BCM283x SoCs.
//!
//! The library models everything the driver decides and computes: the DMA
//! channel allocation policy, register address computation and bus-address
//! translation, conversion of a PCM byte stream into the 12-bit words the PWM
//! FIFO consumes, construction and chaining of the two transfer descriptors,
//! and the playback lifecycle (idle, running, cancelled, terminating, error)
//! driven jointly by the mainline API and the DMA completion interrupt.
//!
//! Values read from volatile hardware status registers enter the library as
//! function arguments; values the driver programs into control registers are
//! recorded in a register-file model, which the platform layer mirrors with
//! volatile writes to the corresponding bus addresses.

pub mod consts;
pub mod regs;
pub mod sample;
pub mod device;

pub use device::PWMSoundDevice;
pub use device::TPWMSoundState;
pub use sample::PcmSource;
