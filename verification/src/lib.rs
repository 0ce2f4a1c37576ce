//! Verified core of the AstraOS desktop applications.
pub mod capture;
pub mod clock;
pub mod desktop_config;
pub mod digest;
pub mod disk;
pub mod hyprland;
pub mod lock;
pub mod onboarding;
pub mod paths;
pub mod photos;
pub mod qemu;
pub mod qemu_downloader;
pub mod qmp;
pub mod screenshot;
pub mod settings_ui;
pub mod shell_ui;
pub mod stats;
pub mod strength;
pub mod text;
pub mod tictactoe;
pub mod vault;
pub mod vm_config;
pub mod vm_manager;
pub mod vm_ui;
pub mod weather;
pub mod welcome;
