//! Gameplay rules of a small 2D space shooter: the playable characters,
//! when and which enemies appear, and the text shown on the heads-up display.
pub mod character;
pub mod enemy;
pub mod hud;
pub mod text;
