pub mod early_withdraw;
pub mod lock_token;
pub mod unlock_token;
