//! The first byte of every frame.

use vstd::prelude::*;

verus! {

pub const FIND: u8 = 0x01;

pub const CANCEL: u8 = 0x02;

pub const MESSAGE: u8 = 0x03;

pub const LEAVE: u8 = 0x04;

pub const PING: u8 = 0x05;

pub const CLOSE: u8 = 0x06;

pub const READY: u8 = 0x10;

pub const SEARCHING: u8 = 0x11;

pub const MATCHED: u8 = 0x12;

pub const SERVER_MESSAGE: u8 = 0x13;

pub const PEER_LEFT: u8 = 0x14;

pub const RATE_LIMITED: u8 = 0x15;

pub const SERVER_BUSY: u8 = 0x16;

pub const ERROR: u8 = 0x17;

pub const PONG: u8 = 0x18;

} // verus!
