pub mod types;
pub mod skill_repo;
pub mod uma_repo;
pub mod support_card_repo;
