//! Core logic of a top-down delivery game: the road network, the delivery
//! scheduler, the selection mode, the courier and the drawn path.
//!
//! Positions are whole world units; everything that needs floating point
//! (square roots, angles) is left to the presentation layer, which receives
//! exact integer quantities from here.

pub mod arena;
pub mod courier;
pub mod geometry;
pub mod houses;
pub mod path;
pub mod road_network;
pub mod scheduler;
pub mod selection;
pub mod town;

pub use arena::{road_rect, Rect, WallLocation};
pub use courier::Courier;
pub use geometry::Point;
pub use houses::{activate_house, initialize_houses, House};
pub use path::{PathBuilder, PathSegment};
pub use road_network::{RoadNetwork, RoadSegment, ValidationError};
pub use scheduler::DeliveryScheduler;
pub use selection::{command_from_keys, Command, SelectionMode, SelectionModeController};
pub use town::create_graph;
