pub mod action_items;
pub mod activity;
pub mod advice;
pub mod chats;
pub mod conversations;
pub mod focus;
pub mod folders;
pub mod goals;
pub mod graph;
pub mod memories;
pub mod messages;
pub mod people;
pub mod personas;
pub mod settings;
pub mod usage;
