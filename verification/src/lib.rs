//! The rules of a tile-based game: the inventory, with categorised item storage, stacking,
//! a currency ledger and a textual snapshot of the whole state, and the camera.
//!
//! - [`camera`]: the part of the map that the window shows.
//! - [`items`]: the goods, their effects and their categories.
//! - [`inventory`]: entries, the bag and the inventory, with the operations on them.
//! - [`model`]: what an inventory is, mathematically, and what each operation makes of it.
//! - [`laws`]: what holds of every inventory.
//! - [`snapshot`]: which JSON document is the snapshot of which inventory.
//! - [`persist`]: saving an inventory as a snapshot and loading it again.
//! - [`json`]: JSON documents, read and printed by `serde_json`.

pub mod camera;
pub mod inventory;
pub mod items;
pub mod json;
pub mod laws;
pub mod model;
pub mod persist;
pub mod snapshot;
