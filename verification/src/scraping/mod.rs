pub mod client;
pub mod condition_types;
pub mod conditions;
pub mod error;
pub mod interpolation;
pub mod racetracks;
pub mod release_dates;
pub mod scaling;
pub mod skill_detail;
pub mod trainee_list;
pub mod trainee_page;
pub mod skills;
pub mod support_cards;
pub mod umas;
pub mod unique_effect;
pub mod urls;
