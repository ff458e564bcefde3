pub mod region;
pub mod shape;
pub mod tracker;
pub mod click_through;
pub mod domain;
pub mod manager;
pub mod text;
pub mod models;
pub mod transcription;
pub mod status;
pub mod connection;
pub mod placement;
pub mod accessibility;
