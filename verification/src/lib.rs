//! Real-time core of an embedded Morse-code (CW) keyer.
//!
//! All keying state flows through a single timeline: paddle input is turned
//! into timed key-down/key-up decisions by the iambic state machine, appended
//! to a fixed-capacity ring ([`stream::KeyingStream`]) as compact samples, and
//! read back by independent consumers at their own pace.  Consumers that fall
//! behind are either a fault (hard real-time policy) or self-healing
//! (best-effort policy); the guiding rule is that corrupted timing is worse
//! than silence.

pub mod audio_buffer;
pub mod audio_source;
pub mod consumer;
pub mod es8311;
pub mod fault;
pub mod hal;
pub mod iambic;
pub mod logging;
pub mod ptt;
pub mod sample;
pub mod sidetone;
pub mod stream;
pub mod uart_logger;

pub use consumer::{BestEffortConsumer, HardRtConsumer};
pub use fault::{FaultCode, FaultState};
pub use iambic::IambicProcessor;
pub use sample::{GpioState, StreamSample};
pub use stream::KeyingStream;
