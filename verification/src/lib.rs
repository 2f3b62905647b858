//! Verified core of a 2D tile engine: texture atlases and their tiles, the
//! vertex and index layout of a tile grid, the application and run states,
//! base maps, the Pokédex, and the text of console log lines.

pub mod app;
pub mod background_tiles;
pub mod decimal;
pub mod entity;
pub mod loader;
pub mod logger;
pub mod map;
pub mod map_gen;
pub mod metadata;
pub mod opengl;
pub mod pokedex;
pub mod status;
pub mod texture_loader;
pub mod texture_tilesets;
