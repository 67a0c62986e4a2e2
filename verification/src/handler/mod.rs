pub mod conversation_items;
