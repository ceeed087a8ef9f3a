pub mod baseline;
pub mod candidates;
pub mod checks;
pub mod county;
pub mod dataset;
pub mod errors;
pub mod evaluation;
pub mod format;
pub mod geojoin;
pub mod gates;
pub mod laws;
pub mod limitations;
pub mod messages;
pub mod plans;
pub mod points;
pub mod render;
pub mod rplan;
pub mod scores;
pub mod seeds;
pub mod sources;
pub mod temporal;
pub mod text;
pub mod zones;
