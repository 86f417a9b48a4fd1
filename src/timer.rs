//! The divider and timer registers, 0xFF04 to 0xFF07.
use crate::registers::wrap8;
use vstd::prelude::*;

verus! {

/// The divider period selected by the two low bits of TAC.
#[derive(Clone, Copy, Debug, PartialEq, Eq, Structural)]
pub enum TimerMode {
    Clock256Mhz,
    Clock4Mhz,
    Clock16Mhz,
    Clock64Khz,
}

impl TimerMode {
    /// Cycles per divider tick.
    pub open spec fn spec_period(self) -> u32 {
        match self {
            TimerMode::Clock256Mhz => 64,
            TimerMode::Clock4Mhz => 1,
            TimerMode::Clock16Mhz => 4,
            TimerMode::Clock64Khz => 16,
        }
    }

    pub open spec fn spec_code(self) -> u8 {
        match self {
            TimerMode::Clock256Mhz => 0,
            TimerMode::Clock4Mhz => 1,
            TimerMode::Clock16Mhz => 2,
            TimerMode::Clock64Khz => 3,
        }
    }

    pub open spec fn from_code(code: u8) -> TimerMode {
        if code == 0 {
            TimerMode::Clock256Mhz
        } else if code == 1 {
            TimerMode::Clock4Mhz
        } else if code == 2 {
            TimerMode::Clock16Mhz
        } else {
            TimerMode::Clock64Khz
        }
    }

    pub fn period(self) -> (r: u32)
        ensures
            r == self.spec_period(),
    {
        match self {
            TimerMode::Clock256Mhz => 64,
            TimerMode::Clock4Mhz => 1,
            TimerMode::Clock16Mhz => 4,
            TimerMode::Clock64Khz => 16,
        }
    }

    fn code(self) -> (r: u8)
        ensures
            r == self.spec_code(),
    {
        match self {
            TimerMode::Clock256Mhz => 0b00,
            TimerMode::Clock4Mhz => 0b01,
            TimerMode::Clock16Mhz => 0b10,
            TimerMode::Clock64Khz => 0b11,
        }
    }
}

pub struct Timer {
    /// 0xFF04, DIV.
    pub div: u8,
    /// 0xFF05, TIMA.
    pub tima: u8,
    /// 0xFF06, TMA.
    pub tma: u8,
    /// Bit 2 of TAC.
    pub enable: bool,
    /// Bits 0 and 1 of TAC.
    pub mode: TimerMode,
    /// Cycles accumulated towards the next divider tick.
    pub timer_clock: u32,
    pub interrupt: u8,
}

/// Whether `address` is one of the timer's registers.
pub open spec fn is_timer_address(address: u16) -> bool {
    0xFF04 <= address <= 0xFF07
}

impl Timer {
    pub open spec fn wf(&self) -> bool {
        self.timer_clock < 64
    }

    pub open spec fn initial() -> Timer {
        Timer {
            div: 0,
            tima: 0,
            tma: 0,
            enable: false,
            mode: TimerMode::Clock256Mhz,
            timer_clock: 0,
            interrupt: 0,
        }
    }

    pub open spec fn spec_read(&self, address: u16) -> u8 {
        if address == 0xFF04 {
            self.div
        } else if address == 0xFF05 {
            self.tima
        } else if address == 0xFF06 {
            self.tma
        } else {
            (0xF8 + (if self.enable { 4int } else { 0 }) + self.mode.spec_code()) as u8
        }
    }

    pub open spec fn spec_write(self, address: u16, value: u8) -> Timer {
        if address == 0xFF04 {
            Timer { div: 0, ..self }
        } else if address == 0xFF05 {
            Timer { tima: value, ..self }
        } else if address == 0xFF06 {
            Timer { tma: value, ..self }
        } else {
            Timer { enable: value & 0x04 != 0, mode: TimerMode::from_code(value & 0x03), ..self }
        }
    }

    /// The divider advances one tick per period of accumulated cycles; when the timer is
    /// enabled and TIMA would overflow within the step, TIMA is reloaded from TMA and the
    /// timer interrupt is raised.
    pub open spec fn spec_step(self, cycles: u8) -> Timer {
        let total = self.timer_clock + cycles;
        let period = self.mode.spec_period();
        let ticked = Timer {
            div: wrap8(self.div + total / period as int),
            timer_clock: (total % period as int) as u32,
            ..self
        };
        if self.enable && 255 - self.tima < cycles {
            Timer { tima: self.tma, interrupt: 0x04, ..ticked }
        } else {
            ticked
        }
    }

    pub fn new() -> (r: Timer)
        ensures
            r == Timer::initial(),
    {
        Timer {
            div: 0,
            tima: 0,
            tma: 0,
            enable: false,
            mode: TimerMode::Clock256Mhz,
            timer_clock: 0,
            interrupt: 0,
        }
    }

    pub fn read(&self, address: u16) -> (r: u8)
        requires
            is_timer_address(address),
        ensures
            r == self.spec_read(address),
    {
        match address {
            0xFF04 => self.div,
            0xFF05 => self.tima,
            0xFF06 => self.tma,
            _ => 0xF8 + (if self.enable {
                4
            } else {
                0
            }) + self.mode.code(),
        }
    }

    pub fn write(&mut self, address: u16, value: u8)
        requires
            is_timer_address(address),
        ensures
            *final(self) == old(self).spec_write(address, value),
    {
        match address {
            0xFF04 => self.div = 0,
            0xFF05 => self.tima = value,
            0xFF06 => self.tma = value,
            _ => {
                self.enable = value & 0b100 != 0;
                let code = value & 0b11;
                self.mode = if code == 0 {
                    TimerMode::Clock256Mhz
                } else if code == 1 {
                    TimerMode::Clock4Mhz
                } else if code == 2 {
                    TimerMode::Clock16Mhz
                } else {
                    TimerMode::Clock64Khz
                };
            },
        }
    }

    pub fn step(&mut self, cycles: u8)
        requires
            old(self).wf(),
        ensures
            *final(self) == old(self).spec_step(cycles),
            final(self).wf(),
    {
        let total = self.timer_clock + cycles as u32;
        let period = self.mode.period();
        self.div = ((self.div as u32 + total / period) % 256) as u8;
        self.timer_clock = total % period;
        if self.enable && 255 - self.tima < cycles {
            self.tima = self.tma;
            self.interrupt = 0x04;
        }
    }
}

} // verus!
