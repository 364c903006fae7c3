//! The speech pipeline's verified parts: the data-driven driver settings, the
//! settings mirror behind the settings GUI, the synthesizer registry, and the
//! priority lanes of the queue thread.

pub mod driver;
pub mod host;
pub mod queue;
pub mod registry;
pub mod render;
pub mod settings;
