//! Windowed selection over a list whose length may change between frames,
//! together with the text entry that filters it and the text of the help
//! table that lists the key bindings.

pub mod help;
pub mod input;
pub mod picker;
