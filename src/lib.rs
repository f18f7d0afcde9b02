pub mod annotation;
pub mod distribution;
pub mod error;
pub mod pipeline;
pub mod record;
pub mod text;
