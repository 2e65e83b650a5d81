pub mod activity;
pub mod group_extensions;
pub mod minter;
pub mod minter_config;
pub mod receipt;
