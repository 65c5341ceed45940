pub mod cascade;
pub mod extract;
pub mod laws;
pub mod outside;
pub mod pipeline;
pub mod plan;
pub mod promote;
pub mod text;
pub mod version;
