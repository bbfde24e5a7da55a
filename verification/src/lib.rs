pub mod commands;
pub mod conf_target;
pub mod constants;
pub mod error;
pub mod host;
pub mod lpnl_add_loc;
pub mod lpnl_backup;
pub mod lpnl_init;
pub mod lpnl_list;
pub mod lpnl_remove;
pub mod lpnl_remove_loc;
pub mod lpnl_state_ctrl;
pub mod setup;
pub mod stats;
pub mod text;
pub mod validation;
