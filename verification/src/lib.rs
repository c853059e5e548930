//! Decoding, validation and resource handling for Nintendo Mii characters.

pub mod cli;
pub mod composite;
pub mod data;
pub mod error;
pub mod expression;
pub mod faceline;
pub mod ffi;
pub mod glb;
pub mod mask;
pub mod mii;
pub mod model;
pub mod query;
pub mod render;
pub mod resource;
pub mod text;

pub use data::{MiiData, MiiFormat};
pub use error::Error;
pub use expression::Expression;
pub use mii::{ColorMode, Mii};
pub use render::{OutputFormat, RenderRequest, ViewType};
pub use model::assembly::CharacterModel;
pub use resource::shape::{Shape, ShapeTransform};
pub use resource::{ResourceArchive, ResourceKind, ShapePart, Texture, TextureFormat, TexturePart};
