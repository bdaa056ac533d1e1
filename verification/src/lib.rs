pub mod animation;
pub mod render;
pub mod scene;
pub mod session;
pub mod weather;
