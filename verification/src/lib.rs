//! Decision logic of the ecosystem simulation server: map indexing, creature
//! choices, message parsing and small component rules, each with a contract.

pub mod algo;
pub mod components;
pub mod rect;
pub mod map;
pub mod ai;
pub mod network;
pub mod gamelog;
pub mod raws;
pub mod gui;
pub mod local_player;
pub mod interaction_system;
pub mod object_deleter;
pub mod birth;
pub mod data_representation;
