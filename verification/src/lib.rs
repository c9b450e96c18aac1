//! The core of a terminal hex editor: an in-memory byte buffer with dirty
//! tracking, the cursor and viewport arithmetic, the key-driven state machine
//! and the layout of the screen. Nothing here touches a file or a terminal;
//! a front end reads keys, hands them in, and carries out what comes back.

pub mod buffer;
pub mod command;
pub mod editor;
pub mod hex;
pub mod key;
pub mod laws;
pub mod screen;
pub mod text;
pub mod viewport;

pub use buffer::{Buffer, SaveError};
pub use command::{CommandKind, Effect, Verdict, Warning};
pub use editor::{Editor, EditorMode};
pub use key::{KeyCode, KeyEvent, KeyModifiers};
pub use screen::{draw_box_part, draw_title, BoxPart, Color, Glyph};
