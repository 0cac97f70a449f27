//! What the terminal display shows, as far as it can be decided without a
//! terminal.

pub mod heart_rate_display;
