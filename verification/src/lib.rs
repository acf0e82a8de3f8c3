//! Geometry and selection engine for repositioning a window on a
//! multi-monitor desktop: typed coordinate spaces, strut (panel
//! reservation) arithmetic, display selection by overlap and by compass
//! direction, a lossless percentage mapping between displays, and a
//! stale-tolerant cache for remote-query results.
pub mod cache;
pub mod errors;
pub mod geometry;
pub mod percent;
pub mod plan;
pub mod registry;
pub mod select;
pub mod strut;
