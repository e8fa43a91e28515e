//! Turns an annotated `.env` file into a markdown table that documents each
//! variable, one row per variable line.
pub mod text;
pub mod laws;
pub mod line;
pub mod output;
pub mod pipeline;
