//! The testing side of a terminal tool for workspaces: groups of tests, their discovery,
//! and the state machine that runs them.

pub mod auto_group;
pub mod cargo;
pub mod custom_group;
pub mod discovery;
pub mod group;
pub mod group_key;
pub mod group_name;
pub mod groups;
pub mod job;
pub mod keys;
pub mod logs;
pub mod message;
pub mod metadata;
pub mod name;
pub mod screen;
pub mod selection;
pub mod settle;
pub mod sorted;
pub mod state;
pub mod target_kind;
pub mod test_item;
pub mod test_list;
pub mod test_name;
pub mod test_results;
pub mod testing;
pub mod text;
pub mod watch;
pub mod workspace;
