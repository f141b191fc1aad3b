//! One decoder for each lump of a file.

pub mod advertisements;
pub mod brushes;
pub mod effects;
pub mod entities;
pub mod faces;
pub mod helpers;
pub mod light_maps;
pub mod light_vols;
pub mod models;
pub mod planes;
pub mod text;
pub mod textures;
pub mod tree;
pub mod tree_depth;
pub mod vertices;
pub mod visdata;

pub use self::advertisements::AdvertisementsLump;
pub use self::brushes::BrushesLump;
pub use self::effects::EffectsLump;
pub use self::entities::EntitiesLump;
pub use self::faces::FaceLump;
pub use self::light_maps::LightMapsLump;
pub use self::light_vols::LightVolsLump;
pub use self::models::ModelsLump;
pub use self::planes::PlanesLump;
pub use self::textures::TexturesLump;
pub use self::tree::BSPTree;
pub use self::vertices::{MeshVertsLump, VerticesLump};
pub use self::visdata::VisDataLump;
