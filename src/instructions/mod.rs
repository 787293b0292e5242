pub mod buy_token;
pub mod create_token;
pub mod delete_token;
pub mod initialize;
pub mod launch_to_dex;
pub mod sell_token;
pub mod update_platform_settings;
pub mod withdraw_fees;

pub use buy_token::{buy_token, BuyTokenCtx};
pub use create_token::{create_token, CreateTokenCtx};
pub use delete_token::{delete_token, DeleteTokenCtx};
pub use initialize::{initialize, InitializeCtx};
pub use launch_to_dex::{launch_to_dex, LaunchToDexCtx};
pub use sell_token::{sell_token, SellTokenCtx};
pub use update_platform_settings::{
    toggle_emergency_pause, update_platform_authority, update_platform_settings, update_platform_treasury,
    ToggleEmergencyPauseCtx, UpdatePlatformAuthorityCtx, UpdatePlatformSettingsCtx, UpdatePlatformTreasuryCtx,
};
pub use withdraw_fees::{withdraw_platform_fees, WithdrawPlatformFeesCtx};
