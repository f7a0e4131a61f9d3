//! Assets

pub mod asset_data;
pub mod name_map;
pub mod overrides;
