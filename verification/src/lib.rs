//! Decision logic of a small VNC viewer: address book, session events,
//! keyboard and pointer translation, texture bookkeeping and Win32 window styles.
use vstd::prelude::*;

pub mod connect;
pub mod input;
pub mod profile;
pub mod session;
pub mod text;
pub mod textures;
pub mod win32;

verus! {

} // verus!
