//! Extraction of sentinel-bounded tables from decoded spreadsheet rows and
//! their aggregation into one flat record stream.

pub mod aggregate;
pub mod cell;
pub mod laws;
pub mod locator;
pub mod sections;
pub mod settings;
pub mod text;
