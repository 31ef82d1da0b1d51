//! Menace: the state, key handling and screen arithmetic of a terminal chat
//! client, with every rule stated as a contract and proved.

pub mod agents;
pub mod app;
pub mod events;
pub mod guarantees;
pub mod handlers;
pub mod run_loop;
pub mod state;
pub mod text;
pub mod types;
pub mod ui;

pub use agents::Agent;
pub use app::{App, AppView};
pub use events::{InputEvent, KeyCode, KeyEvent, MouseEventKind};
pub use handlers::{handle_event, handle_key, AppEvent};
pub use run_loop::{LoopState, LoopStep};
pub use state::InputMode;
pub use types::{Message, MessageRole, MessageView};
