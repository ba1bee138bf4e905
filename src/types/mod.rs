//! Core type definitions: buttons, platforms and events.
pub mod button;
pub mod code_mapper;
pub mod event;
pub mod platform;

pub use button::Button;
pub use code_mapper::CodeMapper;
pub use event::{MouseEvent, ScrollDirection};
pub use platform::Platform;
