pub mod camera;
pub mod clock;
pub mod document;
pub mod drawable;
pub mod engine;
pub mod input;
pub mod scalar;
pub mod scene;
pub mod vector;
