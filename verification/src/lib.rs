pub mod iso_8859_16;
pub mod two_level;
pub mod windows_1256;
