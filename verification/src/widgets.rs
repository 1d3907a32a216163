pub mod audio;
pub mod backlight;
pub mod battery;
