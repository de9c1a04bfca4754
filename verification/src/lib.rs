//! Verified core of a Shadowkeep-era renderer.

pub mod bootstrap;
pub mod bytecode;
pub mod bytes;
pub mod canvas;
pub mod channel_table;
pub mod channels;
pub mod constants;
pub mod cui;
pub mod dds;
pub mod dependency;
pub mod externs;
pub mod geometry;
pub mod globals;
pub mod handle;
pub mod index_list;
pub mod inputs;
pub mod instances;
pub mod layouts;
pub mod ledger;
pub mod light;
pub mod manager;
pub mod map;
pub mod order;
pub mod overlays;
pub mod pipelines;
pub mod pixels;
pub mod pool;
pub mod presentation;
pub mod provenance;
pub mod reads;
pub mod records;
pub mod render_globals;
pub mod rigid;
pub mod sequencer;
pub mod single;
pub mod sky;
pub mod statics;
pub mod steps;
pub mod stored;
pub mod submit;
pub mod swapchain;
pub mod tag;
pub mod tag_map;
pub mod technique;
pub mod text;
pub mod texture;
