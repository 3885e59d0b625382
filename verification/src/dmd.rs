pub mod attract_dmd_screen;
pub mod attract_dmd_state;
pub mod attract_mode_dmd_system;
pub mod scoreboard;
