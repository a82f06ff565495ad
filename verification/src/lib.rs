//! Driver for a hardware countdown timer built on a counter/compare
//! peripheral, offering one-shot delays, periodic ticking, polling-based
//! waiting, interrupt arming, and cancellation.
//!
//! The peripheral's register block is modelled by [`periph::TimerPeriph`],
//! whose simulated clock (`tick`/`advance`) carries the hardware counting
//! semantics.

pub mod irq;
pub mod lemmas;
pub mod periph;
pub mod timer;
