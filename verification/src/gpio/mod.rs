//! Pin identities, pin modes, the register layer and the pin handles.

pub mod dynpin;
pub mod pin;
pub mod reg;
pub mod regfile;
