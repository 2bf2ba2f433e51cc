//! Startup logic of a small file-transfer server launcher: duration
//! shorthand such as `90`, `5m` or `2h`, the listen address, and the
//! one-shot shutdown that follows a configured timeout.
pub mod addr;
pub mod decimal;
pub mod launch;
pub mod shutdown;
pub mod text;
pub mod timeout;
