//! X11 keysym values of the keys the engine reacts to.

use vstd::prelude::*;

verus! {

pub const SPACE: u32 = 0x0020;
pub const KEY_D: u32 = 0x0064;
pub const KEY_D_UPPER: u32 = 0x0044;
pub const KEY_I: u32 = 0x0069;
pub const KEY_K: u32 = 0x006b;
pub const KEY_L: u32 = 0x006c;
pub const KEY_L_UPPER: u32 = 0x004c;
pub const KEY_O: u32 = 0x006f;
pub const KEY_U: u32 = 0x0075;
pub const BACKSPACE: u32 = 0xff08;
pub const TAB: u32 = 0xff09;
pub const RETURN: u32 = 0xff0d;
pub const ESCAPE: u32 = 0xff1b;
pub const UP: u32 = 0xff52;
pub const DOWN: u32 = 0xff54;
pub const F6: u32 = 0xffc3;
pub const F7: u32 = 0xffc4;
pub const F8: u32 = 0xffc5;
pub const DELETE: u32 = 0xffff;

} // verus!
