//! Weather in the terminal: the bearer-credential core that signs requests to the
//! weather service, and the text layout of the forecast panels.

pub mod auth;
pub mod cli;
pub mod clock;
pub mod codec;
pub mod segments;
pub mod signer;
pub mod text;
pub mod tui;
pub mod weatherkit;
