//! Window helper module: configuration of a window for DirectX rendering and
//! decoding of the Windows messages it receives into events.

pub mod builder;
pub mod events;
pub mod keycode;
pub mod message;
pub mod vk;
pub mod wide;

pub use self::builder::{FeatureLevel, WindowBuilder};
pub use self::events::{KeyboardEvent, MouseEvent, WindowEvent, WindowMode};
pub use self::keycode::KeyCode;
pub use self::message::{decode_message, MessageAction};
