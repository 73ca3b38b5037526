pub mod assembly;
pub mod class;
pub mod geometry;
pub mod map;
pub mod material;
pub mod object;
pub mod pack;
pub mod render;
pub mod scene;
pub mod shape;
pub mod view;
pub mod worker;
