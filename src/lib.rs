pub mod error;
pub mod handoff;
pub mod launch;
pub mod port_text;
pub mod record;
pub mod session;
