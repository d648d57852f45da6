pub mod version_menu;
