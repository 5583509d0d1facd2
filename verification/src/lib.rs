pub mod github;
pub mod sync;
pub mod text;
