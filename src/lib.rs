//! Driver for a capacitive touch controller on a two-wire bus.
//!
//! Each method's contract states, over the history of the owned bus, exactly
//! which transactions it performed and how its result follows from what the
//! bus returned.
use vstd::prelude::*;

pub mod bus;
pub mod touch;

pub use bus::{History, I2cBus, Operation, Transaction};
pub use touch::{Point, PointAction, PointsIter};

verus! {

/// Bus address of the touch controller.
pub const DEVICE_ADDRESS: u8 = 0x38;

/// Driver error.
#[derive(Debug, Clone, Copy, PartialEq)]
#[non_exhaustive]
pub enum Error {
    /// A bus transaction failed; holds the bus's error classification.
    I2cError(embedded_hal::i2c::ErrorKind),
    /// Any other failure.
    Other,
}

/// Power modes of the controller.
#[derive(Debug, Clone, Copy, PartialEq, Eq, Structural)]
pub enum PowerMode {
    Active,
    Monitor,
    Standby,
    Hibernate,
}

/// Register byte of a power mode.
pub open spec fn power_mode_code(m: PowerMode) -> u8 {
    match m {
        PowerMode::Active => 0,
        PowerMode::Monitor => 1,
        PowerMode::Standby => 2,
        PowerMode::Hibernate => 3,
    }
}

/// Power mode named by a register byte; unknown bytes fall back to `Active`.
pub open spec fn power_mode_of_code(code: u8) -> PowerMode {
    if code == 1 {
        PowerMode::Monitor
    } else if code == 2 {
        PowerMode::Standby
    } else if code == 3 {
        PowerMode::Hibernate
    } else {
        PowerMode::Active
    }
}

impl PowerMode {
    /// Decodes a register byte, falling back to `Active` on unknown values.
    pub fn from_primitive(code: u8) -> (r: PowerMode)
        ensures
            r == power_mode_of_code(code),
    {
        if code == 1 {
            PowerMode::Monitor
        } else if code == 2 {
            PowerMode::Standby
        } else if code == 3 {
            PowerMode::Hibernate
        } else {
            PowerMode::Active
        }
    }

    /// The mode's register byte.
    pub fn to_primitive(self) -> (r: u8)
        ensures
            r == power_mode_code(self),
    {
        match self {
            PowerMode::Active => 0,
            PowerMode::Monitor => 1,
            PowerMode::Standby => 2,
            PowerMode::Hibernate => 3,
        }
    }
}

/// Decoding the register byte of a mode gives the mode back.
pub proof fn lemma_power_mode_round_trip(m: PowerMode)
    ensures
        power_mode_of_code(power_mode_code(m)) == m,
{
}

/// Scan rate actually written for a requested rate: clamped into 4..=20 Hz.
pub open spec fn clamp_scan_rate(value: u8) -> u8 {
    if value < 4 {
        4
    } else if value > 20 {
        20
    } else {
        value
    }
}

/// A written scan rate lies in 4..=20, and requesting it again writes it unchanged.
pub proof fn lemma_scan_rate_clamp(value: u8)
    ensures
        4 <= clamp_scan_rate(value) <= 20,
        clamp_scan_rate(clamp_scan_rate(value)) == clamp_scan_rate(value),
        4 <= value <= 20 ==> clamp_scan_rate(value) == value,
{
}

/// A written auto-monitor delay is at most 100, and requesting it again writes
/// it unchanged.
pub proof fn lemma_monitor_delay_clamp(value: u8)
    ensures
        clamp_monitor_delay(value) <= 100,
        clamp_monitor_delay(clamp_monitor_delay(value)) == clamp_monitor_delay(value),
        value <= 100 ==> clamp_monitor_delay(value) == value,
{
}

/// Auto-monitor delay actually written for a requested delay: at most 100 s.
pub open spec fn clamp_monitor_delay(value: u8) -> u8 {
    if value > 100 {
        100
    } else {
        value
    }
}

/// Register byte of a flag.
pub open spec fn flag_byte(value: bool) -> u8 {
    if value {
        1
    } else {
        0
    }
}

/// Touch controller driver; owns its bus for its whole lifetime.
pub struct Ft6336<I2C> {
    i2c: I2C,
}

impl<I2C: I2cBus> Ft6336<I2C> {
    /// Transactions the owned bus has performed, oldest first.
    pub open spec fn log(&self) -> History {
        self.bus().history()
    }

    /// The owned bus.
    pub closed spec fn bus(&self) -> I2C {
        self.i2c
    }

    /// Takes ownership of the bus; no transaction is issued.
    pub fn new(i2c: I2C) -> (r: Self)
        ensures
            r.bus() == i2c,
    {
        Ft6336 { i2c }
    }

    /// Hands back the bus.
    pub fn destroy(self) -> (r: I2C)
        ensures
            r == self.bus(),
    {
        self.i2c
    }

    /// Switches the controller to work mode, in case it was left in factory
    /// mode. Safe to call at any time.
    pub fn init(&mut self) -> (r: Result<(), Error>)
        ensures
            wrote_register(old(self).log(), final(self).log(), 0x00, 0x00, r),
    {
        self.write_u8(0x00, 0x00)
    }

    /// Reads the chip code as `(low, mid, high)` from registers 0xA0, 0x9F and
    /// 0xA3, in that order, stopping at the first failed read.
    pub fn chip_code(&mut self) -> (r: Result<(u8, u8, u8), Error>)
        ensures
            old(self).log().len() < final(self).log().len(),
            final(self).log().take(old(self).log().len() as int) == old(self).log(),
            byte_reads(added(old(self).log(), final(self).log()), seq![0xA0u8, 0x9Fu8, 0xA3u8]),
            (r is Ok) == (added(old(self).log(), final(self).log()).len() == 3
                && final(self).log().last().result is Ok),
            r is Ok ==> ({
                let s = added(old(self).log(), final(self).log());
                r->Ok_0 == (s[0].received[0], s[1].received[0], s[2].received[0])
            }),
            r is Err ==> r->Err_0 == bus_error(final(self).log().last()),
    {
        let ghost before = self.log();
        let low = match self.read_u8(0xA0) {
            Ok(v) => v,
            Err(e) => {
                assert(added(before, self.log()) =~= seq![self.log().last()]);
                return Err(e);
            },
        };
        let ghost l1 = self.log();
        let mid = match self.read_u8(0x9F) {
            Ok(v) => v,
            Err(e) => {
                assert(added(before, self.log()) =~= seq![l1.last(), self.log().last()]);
                assert(self.log().take(before.len() as int) =~= before);
                return Err(e);
            },
        };
        let ghost l2 = self.log();
        let r = self.read_u8(0xA3);
        assert(added(before, self.log()) =~= seq![l1.last(), l2.last(), self.log().last()]);
        assert(self.log().take(before.len() as int) =~= before);
        match r {
            Ok(high) => Ok((low, mid, high)),
            Err(e) => Err(e),
        }
    }

    /// Reads the app library version as `(low, high)`: the two bytes at 0xA1
    /// come high first.
    pub fn applib_version(&mut self) -> (r: Result<(u8, u8), Error>)
        ensures
            read_register(old(self).log(), final(self).log(), 0xA1, 2),
            (r is Ok) == (final(self).log().last().result is Ok),
            r is Ok ==> r->Ok_0 == (
                final(self).log().last().received[1],
                final(self).log().last().received[0],
            ),
            r is Err ==> r->Err_0 == bus_error(final(self).log().last()),
    {
        let mut buf: [u8; 2] = [0; 2];
        match self.read_buf(0xA1, &mut buf) {
            Ok(()) => {
                let low = buf[1];
                let high = buf[0];
                Ok((low, high))
            },
            Err(e) => Err(e),
        }
    }

    /// Reads the firmware version.
    pub fn firmware_version(&mut self) -> (r: Result<u8, Error>)
        ensures
            read_register(old(self).log(), final(self).log(), 0xA6, 1),
            answered_byte(final(self).log().last(), r),
    {
        self.read_u8(0xA6)
    }

    /// Reads the vendor ID.
    pub fn vender_id(&mut self) -> (r: Result<u8, Error>)
        ensures
            read_register(old(self).log(), final(self).log(), 0xA8, 1),
            answered_byte(final(self).log().last(), r),
    {
        self.read_u8(0xA8)
    }

    /// Reads the release code.
    pub fn release_code(&mut self) -> (r: Result<u8, Error>)
        ensures
            read_register(old(self).log(), final(self).log(), 0xAF, 1),
            answered_byte(final(self).log().last(), r),
    {
        self.read_u8(0xAF)
    }

    /// Enables or disables frequency hopping (useful on a noisy power source).
    pub fn set_use_freqency_hopping(&mut self, value: bool) -> (r: Result<(), Error>)
        ensures
            wrote_register(old(self).log(), final(self).log(), 0x8B, flag_byte(value), r),
    {
        if value {
            self.write_u8(0x8B, 0x01)
        } else {
            self.write_u8(0x8B, 0x00)
        }
    }

    /// Makes the interrupt line pulse on each new touch event.
    pub fn interrupt_by_pulse(&mut self) -> (r: Result<(), Error>)
        ensures
            wrote_register(old(self).log(), final(self).log(), 0xA4, 0x01, r),
    {
        self.write_u8(0xA4, 0x01)
    }

    /// Makes the interrupt line stay low while a touch event waits to be read.
    pub fn interrupt_by_state(&mut self) -> (r: Result<(), Error>)
        ensures
            wrote_register(old(self).log(), final(self).log(), 0xA4, 0x00, r),
    {
        self.write_u8(0xA4, 0x00)
    }

    /// Enables or disables entering monitor mode automatically after inactivity.
    pub fn set_auto_monitor_mode(&mut self, value: bool) -> (r: Result<(), Error>)
        ensures
            wrote_register(old(self).log(), final(self).log(), 0x86, flag_byte(value), r),
    {
        if value {
            self.write_u8(0x86, 0x01)
        } else {
            self.write_u8(0x86, 0x00)
        }
    }

    /// Sets the inactivity time, in seconds, before monitor mode; values above
    /// 100 are written as 100.
    pub fn set_auto_monitor_mode_delay(&mut self, value: u8) -> (r: Result<(), Error>)
        ensures
            wrote_register(old(self).log(), final(self).log(), 0x87, clamp_monitor_delay(value), r),
    {
        if value > 0x64 {
            self.write_u8(0x87, 0x64)
        } else {
            self.write_u8(0x87, value)
        }
    }

    /// Sets the active-mode scan rate in Hz, clamped into 4..=20.
    pub fn set_scan_rate(&mut self, value: u8) -> (r: Result<(), Error>)
        ensures
            wrote_register(old(self).log(), final(self).log(), 0x88, clamp_scan_rate(value), r),
    {
        if value < 0x04 {
            self.write_u8(0x88, 0x04)
        } else if value > 0x14 {
            self.write_u8(0x88, 0x14)
        } else {
            self.write_u8(0x88, value)
        }
    }

    /// Sets the monitor-mode scan rate in Hz, clamped into 4..=20.
    pub fn set_monitor_scan_rate(&mut self, value: u8) -> (r: Result<(), Error>)
        ensures
            wrote_register(old(self).log(), final(self).log(), 0x89, clamp_scan_rate(value), r),
    {
        if value < 0x04 {
            self.write_u8(0x89, 0x04)
        } else if value > 0x14 {
            self.write_u8(0x89, 0x14)
        } else {
            self.write_u8(0x89, value)
        }
    }

    /// Sets the power mode.
    pub fn set_power_mode(&mut self, value: PowerMode) -> (r: Result<(), Error>)
        ensures
            wrote_register(old(self).log(), final(self).log(), 0xA5, power_mode_code(value), r),
    {
        self.write_u8(0xA5, value.to_primitive())
    }

    /// Reads one byte from `reg`.
    fn read_u8(&mut self, reg: u8) -> (r: Result<u8, Error>)
        ensures
            read_register(old(self).log(), final(self).log(), reg, 1),
            answered_byte(final(self).log().last(), r),
    {
        let mut buf: [u8; 1] = [0; 1];
        match self.read_buf(reg, &mut buf) {
            Ok(()) => Ok(buf[0]),
            Err(e) => Err(e),
        }
    }

    /// Reads `buf.len()` bytes starting at `reg` into `buf`.
    fn read_buf(&mut self, reg: u8, buf: &mut [u8]) -> (r: Result<(), Error>)
        ensures
            read_register(old(self).log(), final(self).log(), reg, old(buf)@.len()),
            final(buf)@ == final(self).log().last().received,
            r == outcome(final(self).log().last()),
    {
        let cmd: [u8; 1] = [reg];
        assert(cmd@ =~= seq![reg]);
        let r = self.i2c.write_read(DEVICE_ADDRESS, &cmd, buf);
        assert(self.log().take(old(self).log().len() as int) =~= old(self).log());
        match r {
            Ok(()) => Ok(()),
            Err(e) => Err(Error::I2cError(e)),
        }
    }

    fn write_u8(&mut self, reg: u8, value: u8) -> (r: Result<(), Error>)
        ensures
            wrote_register(old(self).log(), final(self).log(), reg, value, r),
    {
        let cmd: [u8; 2] = [reg, value];
        assert(cmd@ =~= seq![reg, value]);
        let r = self.i2c.write(DEVICE_ADDRESS, &cmd);
        assert(self.log().take(old(self).log().len() as int) =~= old(self).log());
        match r {
            Ok(()) => Ok(()),
            Err(e) => Err(Error::I2cError(e)),
        }
    }
}

/// Entries appended to `before` to give `after`.
pub open spec fn added(before: Seq<Transaction>, after: Seq<Transaction>) -> Seq<Transaction> {
    after.skip(before.len() as int)
}

/// `s` reads one byte from each register of `regs` in turn, at least one, and
/// stops early only after a failed read.
pub open spec fn byte_reads(s: Seq<Transaction>, regs: Seq<u8>) -> bool {
    &&& 1 <= s.len() <= regs.len()
    &&& forall|i: int|
        0 <= i < s.len() ==> {
            &&& (#[trigger] s[i]).op == Operation::WriteRead
            &&& s[i].address == DEVICE_ADDRESS
            &&& s[i].sent == seq![regs[i]]
            &&& s[i].received.len() == 1
        }
    &&& forall|i: int| 0 <= i < s.len() - 1 ==> (#[trigger] s[i]).result is Ok
    &&& (s.len() < regs.len() ==> s.last().result is Err)
}

/// The bus history grew by one write-then-read of `len` bytes from register `reg`.
pub open spec fn read_register(
    before: Seq<Transaction>,
    after: Seq<Transaction>,
    reg: u8,
    len: nat,
) -> bool {
    &&& after.len() == before.len() + 1
    &&& after.take(before.len() as int) == before
    &&& after.last().op == Operation::WriteRead
    &&& after.last().address == DEVICE_ADDRESS
    &&& after.last().sent == seq![reg]
    &&& after.last().received.len() == len
}

/// Driver error for a transaction that failed: the bus's own error kind.
pub open spec fn bus_error(t: Transaction) -> Error {
    Error::I2cError(t.result->Err_0)
}

/// Driver result of a transaction: `Ok` if the bus succeeded, else its error kind.
pub open spec fn outcome(t: Transaction) -> Result<(), Error> {
    match t.result {
        Ok(()) => Ok(()),
        Err(k) => Err(Error::I2cError(k)),
    }
}

/// `r` is the byte that the one-byte read `t` returned, or the bus's error if `t` failed.
pub open spec fn answered_byte(t: Transaction, r: Result<u8, Error>) -> bool {
    match t.result {
        Ok(()) => r == Ok::<u8, Error>(t.received[0]),
        Err(k) => r == Err::<u8, Error>(Error::I2cError(k)),
    }
}

/// The bus history grew by one plain two-byte write of `value` to `reg`, and `r` reports how it ended.
pub open spec fn wrote_register(
    before: Seq<Transaction>,
    after: Seq<Transaction>,
    reg: u8,
    value: u8,
    r: Result<(), Error>,
) -> bool {
    &&& after.len() == before.len() + 1
    &&& after.take(before.len() as int) == before
    &&& after.last().op == Operation::Write
    &&& after.last().address == DEVICE_ADDRESS
    &&& after.last().sent == seq![reg, value]
    &&& after.last().received.len() == 0
    &&& r == outcome(after.last())
}

} // verus!
