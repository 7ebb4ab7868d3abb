//! The X11 keysyms the key classifier names (`keysymdef.h` values).

use vstd::prelude::*;

verus! {

pub const BACKSPACE: u32 = 0xff08;

pub const TAB: u32 = 0xff09;

pub const RETURN: u32 = 0xff0d;

pub const PAUSE: u32 = 0xff13;

pub const SCROLL_LOCK: u32 = 0xff14;

pub const SYS_REQ: u32 = 0xff15;

pub const ESCAPE: u32 = 0xff1b;

pub const HOME: u32 = 0xff50;

pub const LEFT: u32 = 0xff51;

pub const UP: u32 = 0xff52;

pub const RIGHT: u32 = 0xff53;

pub const DOWN: u32 = 0xff54;

pub const PAGE_UP: u32 = 0xff55;

pub const PAGE_DOWN: u32 = 0xff56;

pub const END: u32 = 0xff57;

pub const BEGIN: u32 = 0xff58;

pub const PRINT: u32 = 0xff61;

pub const INSERT: u32 = 0xff63;

pub const MENU: u32 = 0xff67;

pub const BREAK: u32 = 0xff6b;

pub const MODE_SWITCH: u32 = 0xff7e;

pub const NUM_LOCK: u32 = 0xff7f;

pub const KP_ENTER: u32 = 0xff8d;

pub const KP_HOME: u32 = 0xff95;

pub const KP_LEFT: u32 = 0xff96;

pub const KP_UP: u32 = 0xff97;

pub const KP_RIGHT: u32 = 0xff98;

pub const KP_DOWN: u32 = 0xff99;

pub const KP_PAGE_UP: u32 = 0xff9a;

pub const KP_PAGE_DOWN: u32 = 0xff9b;

pub const KP_END: u32 = 0xff9c;

pub const KP_INSERT: u32 = 0xff9e;

pub const KP_DELETE: u32 = 0xff9f;

pub const F1: u32 = 0xffbe;

pub const F35: u32 = 0xffe0;

pub const SHIFT_L: u32 = 0xffe1;

pub const SHIFT_R: u32 = 0xffe2;

pub const CONTROL_L: u32 = 0xffe3;

pub const CONTROL_R: u32 = 0xffe4;

pub const CAPS_LOCK: u32 = 0xffe5;

pub const SHIFT_LOCK: u32 = 0xffe6;

pub const META_L: u32 = 0xffe7;

pub const META_R: u32 = 0xffe8;

pub const ALT_L: u32 = 0xffe9;

pub const ALT_R: u32 = 0xffea;

pub const SUPER_L: u32 = 0xffeb;

pub const SUPER_R: u32 = 0xffec;

pub const HYPER_L: u32 = 0xffed;

pub const HYPER_R: u32 = 0xffee;

pub const DELETE: u32 = 0xffff;

pub const ISO_LEVEL3_SHIFT: u32 = 0xfe03;

pub const ISO_LEVEL5_SHIFT: u32 = 0xfe11;

pub const ISO_LEFT_TAB: u32 = 0xfe20;

} // verus!
