use vstd::prelude::*;

verus! {

/// Cycles one serial transfer takes: 8 bits at 512 cycles each.
pub const TRANSFER_CYCLES: u32 = 4096;

/// The serial port's registers and transfer progress.
#[derive(Debug, Clone, Copy, PartialEq, Eq, Structural)]
pub struct SerialState {
    /// Transfer data (0xFF01).
    pub sb: u8,
    /// Transfer control (0xFF02); bit 7 set while a transfer runs.
    pub sc: u8,
    /// Cycles spent on the running transfer.
    pub transfer_cycles: u32,
}

/// The serial port: data and control registers and a transfer timer.
pub struct Serial {
    sb: u8,
    sc: u8,
    clock_cycles: u64,
    transfer_cycles: u32,
}

impl View for Serial {
    type V = SerialState;

    closed spec fn view(&self) -> SerialState {
        SerialState { sb: self.sb, sc: self.sc, transfer_cycles: self.transfer_cycles }
    }
}

pub open spec fn is_serial_register(address: u16) -> bool {
    address == 0xFF01 || address == 0xFF02
}

impl Serial {
    pub fn new() -> (r: Self)
        ensures
            r@ == (SerialState { sb: 0, sc: 0, transfer_cycles: 0 }),
    {
        Serial { sb: 0, sc: 0, clock_cycles: 0, transfer_cycles: 0 }
    }

    pub fn read_register(&self, address: u16) -> (r: u8)
        requires
            is_serial_register(address),
        ensures
            r == (if address == 0xFF01 { self@.sb } else { self@.sc }),
    {
        if address == 0xFF01 {
            self.sb
        } else {
            self.sc
        }
    }

    /// Writes a register; setting bit 7 of the control register starts a
    /// transfer from zero cycles.
    pub fn write_register(&mut self, address: u16, value: u8)
        requires
            is_serial_register(address),
        ensures
            final(self)@ == (if address == 0xFF01 {
                SerialState { sb: value, ..old(self)@ }
            } else if value >= 128 {
                SerialState { sc: value, transfer_cycles: 0, ..old(self)@ }
            } else {
                SerialState { sc: value, ..old(self)@ }
            }),
    {
        if address == 0xFF01 {
            self.sb = value;
        } else {
            self.sc = value;
            if value >= 128 {
                self.transfer_cycles = 0;
            }
        }
    }

    /// Advances a running transfer by `ticks` cycles. When it reaches 4096
    /// cycles it completes: bit 7 of the control register clears and the
    /// serial interrupt is requested (the result). The count stops at 4096.
    pub fn do_cycle(&mut self, ticks: u32) -> (r: bool)
        ensures
            old(self)@.sc >= 128 ==> {
                let total = old(self)@.transfer_cycles + ticks;
                &&& r == (total >= 4096)
                &&& final(self)@ == (SerialState {
                    sc: if total >= 4096 { (old(self)@.sc - 128) as u8 } else { old(self)@.sc },
                    transfer_cycles: if total >= 4096 { 4096 } else { total as u32 },
                    ..old(self)@
                })
            },
            old(self)@.sc < 128 ==> !r && final(self)@ == old(self)@,
    {
        if self.sc >= 128 {
            let total: u64 = self.transfer_cycles as u64 + ticks as u64;
            if total >= TRANSFER_CYCLES as u64 {
                self.transfer_cycles = TRANSFER_CYCLES;
                self.sc = self.sc - 128;
                true
            } else {
                self.transfer_cycles = total as u32;
                false
            }
        } else {
            false
        }
    }
}

} // verus!
