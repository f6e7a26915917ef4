pub mod error;
pub mod geometry;
pub mod model;
pub mod display;
pub mod component;
pub mod theme;
pub mod button;
pub mod dialog;
pub mod text;
pub mod bridge;
