pub mod ids;
pub mod json;
pub mod text;
pub mod models;
pub mod dates;
pub mod support_card_skill;
pub mod uma_skill;
pub mod scraping;
pub mod db;
pub mod api;
