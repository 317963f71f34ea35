pub mod racetrack;
pub mod skill;
pub mod support_card;
pub mod uma;
