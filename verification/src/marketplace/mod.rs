//! Plugin marketplace: the plugin catalogue's search, filtering and sorting,
//! card text, installation progress and the marketplace view state.
pub mod search;
pub mod plugin_card;
pub mod installer;
pub mod overlay;
