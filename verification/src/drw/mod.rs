pub mod children;
pub mod drawable;
pub mod texture;
