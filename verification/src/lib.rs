//! Core rules of a small colony-survival simulation: the settlement grid,
//! building placement and undo, colonist roles and relationships, technology
//! research, missions, and the social bookkeeping that the interface shows.
pub mod types;
pub mod text;
pub mod building;
pub mod grid;
pub mod building_system;
pub mod priority;
pub mod mission;
pub mod technology;
pub mod colonist;
pub mod directives;
pub mod event_log;
pub mod time;
pub mod schedule;
pub mod playtest;
pub mod resources;
pub mod scenario;
pub mod game_state;
pub mod resource_system;
pub mod mission_system;
pub mod planning_system;
pub mod scenario_system;
pub mod relations;
pub mod presentation;
pub mod roster;
pub mod colonist_ai;
pub mod commands;
pub mod terrain;
pub mod social_system;
pub mod summary_system;
pub mod advisor_system;
pub mod colonist_spawner;
