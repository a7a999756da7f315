//! Data model of the Gemini content-generation API: requests, responses,
//! conversation contents and their parts, with verified constructors,
//! builders and response accessors.

pub mod json;
pub mod laws;
pub mod models;
pub mod tools;
