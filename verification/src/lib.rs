//! A verified core for a Skyblock stat-card service: response selection,
//! number and text formatting, card layout planning, and PNG delivery.

pub mod bitmap;
pub mod card;
pub mod delivery;
pub mod errors;
pub mod layout;
pub mod model;
pub mod select;
pub mod textnum;
pub mod username;
