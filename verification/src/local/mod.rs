pub mod chat;
pub mod conversations;
pub mod goals;
pub mod schema;
pub mod scores;
pub mod screen;
pub mod tasks;
