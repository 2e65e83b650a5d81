pub mod activity;
pub mod authority;
pub mod create;
pub mod mint;
pub mod prepare;
pub mod remove;
pub mod update;
pub mod wns_create;
pub mod wns_mint;
