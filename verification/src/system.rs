//! The components that configure and install the system.
pub mod package_manager;
pub mod layout;
pub mod encryption;
pub mod filesystem;
pub mod chroot;
pub mod services;
pub mod kernel;
pub mod bootloader;
pub mod storage;
pub mod display;
pub mod installer;
pub mod audio;
pub mod power;
pub mod network;
pub mod updates;
pub mod login;
pub mod theming;
pub mod builder;
pub mod distro;
pub mod iso_builder;
pub mod backup;
pub mod security;
pub mod init;
pub mod software;
pub mod packaging;
pub mod setup;
