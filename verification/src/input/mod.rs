pub mod button_state;
pub mod events;
pub mod input_state;
pub mod state_manager;
