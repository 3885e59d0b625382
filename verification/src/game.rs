pub mod exclusive_mode;
pub mod mode_manager;
pub mod exclusive_mode_manager;
pub mod points;
pub mod qualification;
pub mod hydro_core_mode;
pub mod hydro_core_system;
pub mod meridian_basins_mode;
pub mod skyrail_station_mode;
pub mod solarium_atrium_mode;
pub mod spore_multiball;
pub mod apex_terraces;
pub mod nimbus_promenade;
pub mod left_scoop_startable;
pub mod lift_ramp_startable;
pub mod city_coverage;
pub mod spores;
pub mod skill_shots;
pub mod end_of_ball;
pub mod playfield_illumination;
pub mod basic_points;
pub mod activate_playfield;
pub mod starters;
