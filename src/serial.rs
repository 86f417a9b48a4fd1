//! The serial link registers, kept as plain storage.
use vstd::prelude::*;

verus! {

pub struct Serial {
    /// 0xFF01, SB: transfer data.
    pub sb: u8,
    /// 0xFF02, SC: transfer control.
    pub sc: u8,
}

impl Serial {
    pub fn new() -> (r: Serial)
        ensures
            r.sb == 0,
            r.sc == 0,
    {
        Serial { sb: 0, sc: 0 }
    }

    pub fn read(&self, address: u16) -> (r: u8)
        requires
            address == 0xFF01 || address == 0xFF02,
        ensures
            r == if address == 0xFF01 {
                self.sb
            } else {
                self.sc
            },
    {
        if address == 0xFF01 {
            self.sb
        } else {
            self.sc
        }
    }

    pub fn write(&mut self, address: u16, value: u8)
        requires
            address == 0xFF01 || address == 0xFF02,
        ensures
            address == 0xFF01 ==> *final(self) == (Serial { sb: value, ..*old(self) }),
            address == 0xFF02 ==> *final(self) == (Serial { sc: value, ..*old(self) }),
    {
        if address == 0xFF01 {
            self.sb = value;
        } else {
            self.sc = value;
        }
    }
}

} // verus!
