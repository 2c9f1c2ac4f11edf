//! Query and command logic of a fitness and nutrition tracker: who may do
//! what, how list and detail requests are answered, how mutations proceed,
//! and what a page shows for each state of its request.

pub mod detail;
pub mod error;
pub mod exercise;
pub mod follower;
pub mod food;
pub mod form;
pub mod ident;
pub mod identity;
pub mod list;
pub mod meal;
pub mod param;
pub mod permission;
pub mod store;
pub mod training_plan;
pub mod user_block;
pub mod view;
