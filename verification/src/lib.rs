//! Verified decision and index logic of the Qwen3-TTS driver: reference codec
//! frame layouts, convolution padding, the sliding key/value cache window, the
//! talker generation state machine, rotary position source selection, model
//! layout derivation from configuration, and the engine component description.

pub mod backend;
pub mod cache;
pub mod codec;
pub mod conv;
pub mod engine;
pub mod error;
pub mod generation;
pub mod layout;
pub mod mask;
pub mod reference;
pub mod rope;
pub mod sampling;
pub mod voice;
pub mod speaker;
