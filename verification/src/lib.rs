//! Decisions of a small streaming player for the Classical California stations.
pub mod stations;
pub mod stream_url;
pub mod text;
pub mod player;
pub mod selector;
pub mod station_urls;
pub mod cache;
pub mod event;
pub mod lookup;
pub mod display;
pub mod app;
