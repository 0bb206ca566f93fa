pub mod bus;
pub mod chat_room;
pub mod events;
pub mod room_manager;
pub mod user_registry;
pub mod user_session_handle;
