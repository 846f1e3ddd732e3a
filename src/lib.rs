pub mod collision_groups;
pub mod entity;
pub mod geometry;
pub mod health;
pub mod inventory;
pub mod item_pickups;
pub mod notification;
pub mod pickup;
pub mod player;
pub mod projectile;
mod random;
pub mod shop;
pub mod state;
pub mod targeting;
pub mod text;
pub mod tower;
pub mod tree;
pub mod ui_util;
pub mod utils;
pub mod waves;
pub mod weapon;
