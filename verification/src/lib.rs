pub mod text;
pub mod input_field;
pub mod hotkeys;
pub mod capture;
pub mod settings;
pub mod imaging;
