pub mod buildobj;
pub mod game;
pub mod geom;
pub mod region;
pub mod site;
pub mod text;
pub mod tilemap;
