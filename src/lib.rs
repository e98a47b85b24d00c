//! Physics-and-history core of a small gravitating N-body animation: the run
//! and trail-visibility state machines, bounded motion trails kept per body
//! handle, and the pair schedule of the force pass.
pub mod cursor;
pub mod pairs;
pub mod state;
pub mod store;
pub mod trail;

pub use cursor::{CursorCoords, CursorPlugin, MainCamera};
pub use pairs::unordered_pairs;
pub use state::{Controller, InputEvent, SimulationState, TrailState};
pub use store::TrailStore;
pub use trail::{trail_color, Trail};
