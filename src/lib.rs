//! The adapter-mixing core of an X-LoRA inference engine: the protocol that
//! decides, per generation step, which scalings mix the adapters, the
//! step counter of non-granular mode, the generation cache it reads and
//! resets, the check of an adapter ordering against the model's layers, and
//! the reading of the memory figures that platform tools print.

pub mod adapters;
pub mod cache;
pub mod engine;
pub mod memory;
pub mod state;
