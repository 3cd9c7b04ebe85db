//! An interactive 2D map viewer core: a render-session model that drives
//! GPU-driven color passes over a presented surface, together with the
//! pointer-driven pan/zoom/drag state machine that derives each frame's
//! camera transform from raw input events.
//!
//! The library is the verified heart of the viewer.  All geometry is kept in
//! whole pixel units and the zoom factor in millionths, so every camera rule
//! is exact; the windowing, GPU and image-decoding shells convert at the
//! boundary.  GPU objects (pipelines, bind groups, surface configurations)
//! are modelled structurally: the library decides every field of every
//! descriptor and checks binding-set compatibility, while the shell merely
//! hands the finished descriptions to the driver.
//!
//! The side generators that share the repository (coin amounts, loot
//! records, the character-chain name model) live here as well, with their
//! own contracts.

mod generate;
mod geom;
mod gpu;
mod interact;
mod items;
mod maprender;
mod markov;
mod money;
mod renderpass;
mod rng;
mod session;
mod uniform;

pub use generate::RPGenerator;
pub use geom::Vec2;
pub use interact::{
    Action, DragState, InputEvent, InteractionController, MouseButton, ScrollDelta, SCROLL_UNIT,
};
pub use maprender::{MapRenderpass, Metadata, SamplerData, ZOOM_MAX, ZOOM_MIN, ZOOM_UNIT};
pub use items::{LootItemRecord, LootStash, PersonLootItems};
pub use markov::MarkovModel;
pub use money::{Coins, Money, COINS_MAX_KREUZER};
pub use renderpass::{ColorRenderPass, DrawCommand};
pub use session::{ColorRenderpasses, FramePlan, RenderSession};
pub use uniform::{UniformBuffer, METADATA_BYTES};
pub use gpu::{
    AddressMode, BindGroup, BindGroupLayout, BindingEntry, BindingKind, BindingResource, Color,
    CompositeAlphaMode, FilterMode, Pipeline, PipelineError, PresentMode, PrimitiveTopology,
    SamplerDesc, ShaderInterface, SurfaceConfig, SurfaceFormat, TextureDesc, TextureUsages,
    UploadLayout, Visibility,
};
