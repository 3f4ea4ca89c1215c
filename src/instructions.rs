pub mod create_creator_profile;
pub mod send_tip;
pub mod update_profile;
pub mod withdraw_tips;
