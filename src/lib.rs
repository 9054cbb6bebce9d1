//! Mini-terminal library: the interaction protocol between a local input device and a
//! remote service, the replay of recorded sessions, and the rendering of the service's
//! scene graphs.
pub mod draw;
pub mod event;
pub mod graphics;
pub mod keyboard;
pub mod lang;
pub mod orchestrator;
pub mod replay;
pub mod types;
