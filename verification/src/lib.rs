pub mod text;
pub mod paths;
pub mod color;
pub mod searchbar;
pub mod toml_doc;
pub mod toml_bridge;
pub mod theme;
pub mod settings;
pub mod layout;
pub mod keys;
pub mod entries;
pub mod overlay;
pub mod keymap;
pub mod pathset;
pub mod preview;
pub mod app_state;
pub mod app_session;
pub mod app_bookmark;
pub mod app_profile;
pub mod app_search;
pub mod app_edit;
pub mod app_keys;
pub mod thumbs;
pub mod views;
pub mod views_columns;
pub mod views_panels;
pub mod views_details;
pub mod walk;
