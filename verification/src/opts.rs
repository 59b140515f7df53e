//! The options of the server and of its two backends, and the argument vectors
//! that stand for them.

pub mod carbon;
pub mod common;
pub mod server;
pub mod silicon;

pub use carbon::{CarbonOpts, CarbonOptsBuilder, CarbonOptsBuilderError};
pub use server::{ViperServerOpts, ViperServerOptsBuilder, ViperServerOptsBuilderError};
pub use silicon::{SiliconOpts, SiliconOptsBuilder, SiliconOptsBuilderError};
