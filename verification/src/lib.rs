pub mod clock;
pub mod grid;
pub mod laws;
pub mod random;
pub mod status;
pub mod whacker;

pub use grid::Grid;
pub use status::{HammerType, MoleError, MoleStatus, Statistics};
pub use whacker::{MoleWhacker, WhackRequest, WhackResult};
