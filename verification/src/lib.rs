//! Verified core of a tower-defence simulation.
//!
//! Stationary towers fire at hostile units that travel along routes through
//! a level. This library holds the rules of that simulation: how routes are
//! built out of waypoints, when spawn sources produce units, how a unit
//! walks its route, and which unit a tower fires at and where it aims.
//!
//! All quantities are integers. Lengths are thousandths of a world unit,
//! times are nanoseconds, speeds are thousandths of a world unit per second.
//! The host moves and draws the units and hands their positions back on
//! every tick.

pub mod common;
pub mod enemy;
pub mod geometry;
pub mod level;
pub mod navigation;
pub mod projectile;
pub mod route_table;
pub mod routes;
pub mod sorting;
pub mod spawner;
pub mod timer;
pub mod tower;
