//! A soundboard catalog: a searchable store of sound records, a stateless
//! pagination engine over it, and the compact tokens that carry a browsing
//! position through a remote button UI.

pub mod text;
pub mod codec;
pub mod normalize;
pub mod paging;
pub mod store;
pub mod audio;
pub mod catalog;
pub mod paginator;
pub mod settings;
pub mod display;
pub mod config;
