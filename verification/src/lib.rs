//! A small image viewer core: it reads an encoded image from a file or from
//! standard input, decodes it to an RGBA bitmap off the main thread, publishes
//! the bitmap to a shared slot for the UI, and can later encode the held
//! bitmap again to persist it at a user-supplied, shell-expandable path.

pub mod decode;
pub mod errors;
pub mod image_data;
pub mod opts;
pub mod pipeline;
pub mod save;
pub mod save_format;
pub mod slot;

pub use decode::decode;
pub use errors::DecodeError;
pub use errors::WriteError;
pub use image_data::DecodedImage;
pub use image_data::ImageView;
pub use opts::InputOrigin;
pub use opts::Opts;
pub use pipeline::LoadPipeline;
pub use pipeline::LoadState;
pub use save::SaveOutcome;
pub use save::SavePlan;
pub use save::prepare_save;
pub use save_format::SaveFormat;
pub use slot::SharedImageSlot;
