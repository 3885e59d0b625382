pub mod city_shot;
pub mod regions;
pub mod city_manager;
pub mod coverage_qualification;
