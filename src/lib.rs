use vstd::prelude::*;

pub mod register;

pub use crate::register::{DeviceVersion, Register};
use crate::register::{address_of, version_of};

verus! {

/// Seven-bit bus address of the chip.
pub const I2C_SLAVE_ADDRESS: u8 = 0x68;

/// Time the bus needs after the wake line rises before the chip answers (data sheet: 1.8 ms).
pub const WAKEUP_I2C_DELAY_US: u16 = 1_800;

/// What can go wrong: a bus fault, a control-line fault, or an identity byte that names no
/// known revision.
#[derive(Debug, Clone, PartialEq, Eq)]
pub enum Error<I2cErr, PinErr> {
    /// The bus reported a failed transaction.
    I2c(I2cErr),
    /// A control line could not be driven.
    Pin(PinErr),
    /// The identity register held a byte that names no known revision.
    UnknownEnumValue,
}

impl<I2cErr, PinErr> From<PinErr> for Error<I2cErr, PinErr> {
    fn from(err: PinErr) -> (r: Error<I2cErr, PinErr>)
        ensures
            r == Error::<I2cErr, PinErr>::Pin(err),
    {
        Error::Pin(err)
    }
}

impl<I2cErr, PinErr> vstd::std_specs::convert::FromSpecImpl<PinErr> for Error<I2cErr, PinErr> {
    open spec fn obeys_from_spec() -> bool {
        true
    }

    open spec fn from_spec(err: PinErr) -> Error<I2cErr, PinErr> {
        Error::Pin(err)
    }
}

/// The two operating modes that matter to the driver.
#[derive(Debug, Clone, Copy, PartialEq, Eq, Structural)]
pub enum Mode {
    Sleep,
    /// Standby and active merged into one mode, as only bus availability matters
    StandbyActive,
}

/// A logic level driven onto a control line.
#[derive(Debug, Clone, Copy, PartialEq, Eq, Structural)]
pub enum Level {
    Low,
    High,
}

/// One drive asked of a control line, with what the line returned.
pub type Drive<E> = (Level, Result<(), E>);

/// The drives asked of a control line, oldest first.
pub type DriveLog<E> = Seq<Drive<E>>;

/// The transactions asked of the register bus, oldest first.
pub type BusLog<E> = Seq<BusCall<E>>;

/// The delays asked of a delay provider, in microseconds, oldest first.
pub type WaitLog = Seq<u16>;

/// One transaction asked of the register bus, with what the bus returned.
pub enum BusCall<E> {
    /// `bytes` written to the device at `address`.
    Write { address: u8, bytes: Seq<u8>, outcome: Result<(), E> },
    /// `bytes` written to the device at `address` and one byte read back in the same
    /// transaction; on success the outcome holds that byte.
    WriteRead { address: u8, bytes: Seq<u8>, outcome: Result<u8, E> },
}

/// A control line that can be driven to either level. Implementations are the caller's;
/// each records in `drives` every drive asked of it.
pub trait ControlPin {
    type Error;

    /// Every drive asked of this line, oldest first, with what it returned.
    spec fn drives(&self) -> DriveLog<Self::Error>;

    /// Drives the line low.
    fn drive_low(&mut self) -> (r: Result<(), Self::Error>)
        ensures
            final(self).drives() == old(self).drives().push((Level::Low, r)),
    ;

    /// Drives the line high.
    fn drive_high(&mut self) -> (r: Result<(), Self::Error>)
        ensures
            final(self).drives() == old(self).drives().push((Level::High, r)),
    ;
}

/// The register bus: a plain write, and a write followed by a read in one transaction.
/// Implementations are the caller's; each records in `transactions` every call.
pub trait RegisterBus {
    type Error;

    /// Every transaction asked of the bus, oldest first, with what it returned.
    spec fn transactions(&self) -> BusLog<Self::Error>;

    /// Writes `bytes` to the device at the seven-bit `address`.
    fn write_frame(&mut self, address: u8, bytes: &[u8; 2]) -> (r: Result<(), Self::Error>)
        ensures
            final(self).transactions() == old(self).transactions().push(
                BusCall::Write { address, bytes: bytes@, outcome: r },
            ),
    ;

    /// Writes `bytes` to the device at `address` and reads into `buffer` within the same
    /// transaction.
    fn write_read_frame(&mut self, address: u8, bytes: &[u8; 1], buffer: &mut [u8; 1]) -> (r:
        Result<(), Self::Error>)
        ensures
            final(self).transactions() == old(self).transactions().push(
                BusCall::WriteRead {
                    address,
                    bytes: bytes@,
                    outcome: match r {
                        Ok(_) => Ok(final(buffer)@[0]),
                        Err(e) => Err(e),
                    },
                },
            ),
    ;
}

/// A provider of blocking delays. Implementations are the caller's; each records in
/// `waits` every delay asked of it.
pub trait SettleDelay {
    /// Every delay asked, in microseconds, oldest first.
    spec fn waits(&self) -> WaitLog;

    /// Blocks for `us` microseconds.
    fn wait_us(&mut self, us: u16)
        ensures
            final(self).waits() == old(self).waits().push(us),
    ;
}

/// The level that a line was last successfully driven to, if any.
pub open spec fn last_level<E>(d: Seq<Drive<E>>) -> Option<Level>
    decreases d.len(),
{
    if d.len() == 0 {
        None
    } else if d.last().1 is Ok {
        Some(d.last().0)
    } else {
        last_level(d.drop_last())
    }
}

/// Two successful drives: to `from`, then to `to`.
pub open spec fn pulse<E>(from: Level, to: Level) -> Seq<Drive<E>> {
    seq![(from, Ok(())), (to, Ok(()))]
}

/// `d` extends `d0` by a forced edge from `from` to `to` as `r` reports it: both drives
/// succeeded, or the drives stopped at the first one that failed and `r` carries that
/// line's own error.
pub open spec fn edge_outcome<I, P>(
    d0: Seq<Drive<P>>,
    d: Seq<Drive<P>>,
    from: Level,
    to: Level,
    r: Result<(), Error<I, P>>,
) -> bool {
    match r {
        Ok(()) => d == d0 + pulse::<P>(from, to),
        Err(Error::Pin(e)) => d == d0.push((from, Err(e))) || d == d0.push((from, Ok(()))).push(
            (to, Err(e)),
        ),
        Err(_) => false,
    }
}

/// What a driver operation returns for the outcome of a bus write.
pub open spec fn write_result<I, P>(o: Result<(), I>) -> Result<(), Error<I, P>> {
    match o {
        Ok(()) => Ok(()),
        Err(e) => Err(Error::I2c(e)),
    }
}

/// What a driver operation returns for the outcome of a register read.
pub open spec fn read_result<I, P>(o: Result<u8, I>) -> Result<u8, Error<I, P>> {
    match o {
        Ok(b) => Ok(b),
        Err(e) => Err(Error::I2c(e)),
    }
}

/// What an identity query returns for the outcome of reading the revision register.
pub open spec fn version_result<I, P>(o: Result<u8, I>) -> Result<DeviceVersion, Error<I, P>> {
    match o {
        Ok(b) => match version_of(b) {
            Some(v) => Ok(v),
            None => Err(Error::UnknownEnumValue),
        },
        Err(e) => Err(Error::I2c(e)),
    }
}

/// `calls` extends `before` by exactly one combined write-then-read of the frame
/// `[address_of(register)]` at the chip's bus address.
pub open spec fn one_register_read<E>(before: Seq<BusCall<E>>, calls: Seq<BusCall<E>>, register: Register) -> bool {
    &&& calls.len() == before.len() + 1
    &&& calls.drop_last() == before
    &&& calls.last() is WriteRead
    &&& calls.last()->WriteRead_address == I2C_SLAVE_ADDRESS
    &&& calls.last()->WriteRead_bytes == seq![address_of(register)]
}

/// Driver for the TPS65185. `AWAKE` is false in sleep mode and true while the bus is ready;
/// register operations exist only on the awake type, and every transition consumes the
/// controller and hands back one of the other mode.
pub struct Tps65185<I2c, Wakeup, Pwrup, VcomCtrl, const AWAKE: bool> {
    i2c: I2c,
    pin_wakeup: Wakeup,
    pin_pwrup: Pwrup,
    pin_vcom_ctrl: VcomCtrl,
}

impl<I2c, Wakeup, Pwrup, VcomCtrl, const AWAKE: bool> Tps65185<I2c, Wakeup, Pwrup, VcomCtrl, AWAKE> {
    /// The operating mode that this controller's type stands for.
    pub fn mode(&self) -> (m: Mode)
        ensures
            m == (if AWAKE { Mode::StandbyActive } else { Mode::Sleep }),
    {
        if AWAKE {
            Mode::StandbyActive
        } else {
            Mode::Sleep
        }
    }
}

impl<I2c, Wakeup, Pwrup, VcomCtrl, const AWAKE: bool> Tps65185<I2c, Wakeup, Pwrup, VcomCtrl, AWAKE> where
    I2c: RegisterBus,
    Wakeup: ControlPin,
    Pwrup: ControlPin,
    VcomCtrl: ControlPin,
 {
    /// The transactions recorded by the owned bus.
    pub closed spec fn bus(&self) -> Seq<BusCall<I2c::Error>> {
        self.i2c.transactions()
    }

    /// The drives recorded by the owned wake line.
    pub closed spec fn wakeup_line(&self) -> Seq<Drive<Wakeup::Error>> {
        self.pin_wakeup.drives()
    }

    /// The drives recorded by the owned power-up line.
    pub closed spec fn pwrup_line(&self) -> Seq<Drive<Pwrup::Error>> {
        self.pin_pwrup.drives()
    }

    /// The drives recorded by the owned VCOM control line.
    pub closed spec fn vcom_line(&self) -> Seq<Drive<VcomCtrl::Error>> {
        self.pin_vcom_ctrl.drives()
    }

    /// The wake line was last driven high when awake, low when asleep.
    pub open spec fn wf(&self) -> bool {
        last_level(self.wakeup_line()) == Some(if AWAKE { Level::High } else { Level::Low })
    }
}

impl<I2c, Wakeup, Pwrup, VcomCtrl, I2cErr, PinErr> Tps65185<I2c, Wakeup, Pwrup, VcomCtrl, false> where
    I2c: RegisterBus<Error = I2cErr>,
    Wakeup: ControlPin<Error = PinErr>,
    Pwrup: ControlPin<Error = PinErr>,
    VcomCtrl: ControlPin<Error = PinErr>,
 {
    /// Takes ownership of the bus and the three control lines and puts the chip to sleep:
    /// wake line low, VCOM control high, wake line low once more. Stops at the first pin
    /// that fails, leaving the lines already driven as they are.
    pub fn new(i2c: I2c, pin_wakeup: Wakeup, pin_pwrup: Pwrup, pin_vcom_ctrl: VcomCtrl) -> (r:
        Result<Self, Error<I2cErr, PinErr>>)
        ensures
            r is Ok ==> {
                let c = r->Ok_0;
                &&& c.wakeup_line() == pin_wakeup.drives() + pulse::<PinErr>(Level::Low, Level::Low)
                &&& c.vcom_line() == pin_vcom_ctrl.drives().push((Level::High, Ok(())))
                &&& c.pwrup_line() == pin_pwrup.drives()
                &&& c.bus() == i2c.transactions()
                &&& c.wf()
            },
            r is Err ==> r->Err_0 is Pin,
    {
        let ghost w0 = pin_wakeup.drives();
        let mut pin_wakeup = pin_wakeup;
        let mut pin_vcom_ctrl = pin_vcom_ctrl;
        let first = pin_wakeup.drive_low();
        if let Err(e) = first {
            return Err(Error::Pin(e));
        }
        let second = pin_vcom_ctrl.drive_high();
        if let Err(e) = second {
            return Err(Error::Pin(e));
        }
        let third = pin_wakeup.drive_low();
        if let Err(e) = third {
            return Err(Error::Pin(e));
        }
        assert(first->Ok_0 == () && second->Ok_0 == () && third->Ok_0 == ());
        let r = Tps65185 { i2c, pin_wakeup, pin_pwrup, pin_vcom_ctrl };
        assert(r.wakeup_line() =~= w0 + pulse::<PinErr>(Level::Low, Level::Low));
        assert(r.wakeup_line().drop_last() =~= w0.push((Level::Low, Ok(()))));
        Ok(r)
    }

    /// Drives the wake line high and, where a delay provider is given, asks it for the bus
    /// settle time. Without one, the caller must let that time pass before using the bus.
    pub fn wakeup<D: SettleDelay>(self, delay: Option<&mut D>) -> (r: Result<
        Tps65185<I2c, Wakeup, Pwrup, VcomCtrl, true>,
        Error<I2cErr, PinErr>,
    >)
        ensures
            r is Ok ==> {
                let c = r->Ok_0;
                &&& c.wakeup_line() == self.wakeup_line().push((Level::High, Ok(())))
                &&& c.vcom_line() == self.vcom_line()
                &&& c.pwrup_line() == self.pwrup_line()
                &&& c.bus() == self.bus()
                &&& c.wf()
            },
            r is Ok && delay is Some ==> final(delay->Some_0).waits() == delay->Some_0.waits().push(
                WAKEUP_I2C_DELAY_US,
            ),
            r is Err ==> r->Err_0 is Pin,
            r is Err && delay is Some ==> final(delay->Some_0).waits() == delay->Some_0.waits(),
    {
        let mut s = self;
        let raised = s.pin_wakeup.drive_high();
        if let Err(e) = raised {
            return Err(Error::Pin(e));
        }
        assert(raised->Ok_0 == ());
        match delay {
            Some(d) => d.wait_us(WAKEUP_I2C_DELAY_US),
            None => {},
        }
        Ok(Tps65185 {
            i2c: s.i2c,
            pin_wakeup: s.pin_wakeup,
            pin_pwrup: s.pin_pwrup,
            pin_vcom_ctrl: s.pin_vcom_ctrl,
        })
    }
}

impl<I2c, Wakeup, Pwrup, VcomCtrl, I2cErr, PinErr> Tps65185<I2c, Wakeup, Pwrup, VcomCtrl, true> where
    I2c: RegisterBus<Error = I2cErr>,
    Wakeup: ControlPin<Error = PinErr>,
    Pwrup: ControlPin<Error = PinErr>,
    VcomCtrl: ControlPin<Error = PinErr>,
 {
    /// Reads the revision register and looks the byte up among the known revisions.
    pub fn device_version(&mut self) -> (r: Result<DeviceVersion, Error<I2cErr, PinErr>>)
        requires
            old(self).wf(),
        ensures
            final(self).wf(),
            one_register_read(old(self).bus(), final(self).bus(), Register::REVID),
            r == version_result::<I2cErr, PinErr>(final(self).bus().last()->WriteRead_outcome),
            final(self).wakeup_line() == old(self).wakeup_line(),
            final(self).pwrup_line() == old(self).pwrup_line(),
            final(self).vcom_line() == old(self).vcom_line(),
    {
        match self.read_register(Register::REVID) {
            Ok(value) => match DeviceVersion::from_repr(value) {
                Some(v) => Ok(v),
                None => Err(Error::UnknownEnumValue),
            },
            Err(e) => Err(e),
        }
    }

    /// Forces a rising edge on the power-up line: low first, then high, whatever its level.
    pub fn enable(&mut self) -> (r: Result<(), Error<I2cErr, PinErr>>)
        requires
            old(self).wf(),
        ensures
            final(self).wf(),
            edge_outcome(old(self).pwrup_line(), final(self).pwrup_line(), Level::Low, Level::High, r),
            final(self).wakeup_line() == old(self).wakeup_line(),
            final(self).vcom_line() == old(self).vcom_line(),
            final(self).bus() == old(self).bus(),
    {
        let first = self.pin_pwrup.drive_low();
        if let Err(e) = first {
            return Err(Error::Pin(e));
        }
        assert(first->Ok_0 == ());
        let second = self.pin_pwrup.drive_high();
        match second {
            Ok(()) => {
                assert(second->Ok_0 == ());
                assert(self.pwrup_line() =~= old(self).pwrup_line() + pulse::<PinErr>(Level::Low, Level::High));
                Ok(())
            },
            Err(e) => Err(Error::Pin(e)),
        }
    }

    /// Forces a falling edge on the power-up line: high first, then low, whatever its level.
    pub fn disable(&mut self) -> (r: Result<(), Error<I2cErr, PinErr>>)
        requires
            old(self).wf(),
        ensures
            final(self).wf(),
            edge_outcome(old(self).pwrup_line(), final(self).pwrup_line(), Level::High, Level::Low, r),
            final(self).wakeup_line() == old(self).wakeup_line(),
            final(self).vcom_line() == old(self).vcom_line(),
            final(self).bus() == old(self).bus(),
    {
        let first = self.pin_pwrup.drive_high();
        if let Err(e) = first {
            return Err(Error::Pin(e));
        }
        assert(first->Ok_0 == ());
        let second = self.pin_pwrup.drive_low();
        match second {
            Ok(()) => {
                assert(second->Ok_0 == ());
                assert(self.pwrup_line() =~= old(self).pwrup_line() + pulse::<PinErr>(Level::High, Level::Low));
                Ok(())
            },
            Err(e) => Err(Error::Pin(e)),
        }
    }

    /// Drives the wake line low, returning the chip to sleep.
    pub fn sleep(self) -> (r: Result<
        Tps65185<I2c, Wakeup, Pwrup, VcomCtrl, false>,
        Error<I2cErr, PinErr>,
    >)
        ensures
            r is Ok ==> {
                let c = r->Ok_0;
                &&& c.wakeup_line() == self.wakeup_line().push((Level::Low, Ok(())))
                &&& c.vcom_line() == self.vcom_line()
                &&& c.pwrup_line() == self.pwrup_line()
                &&& c.bus() == self.bus()
                &&& c.wf()
            },
            r is Err ==> r->Err_0 is Pin,
    {
        let mut s = self;
        let lowered = s.pin_wakeup.drive_low();
        if let Err(e) = lowered {
            return Err(Error::Pin(e));
        }
        assert(lowered->Ok_0 == ());
        Ok(Tps65185 {
            i2c: s.i2c,
            pin_wakeup: s.pin_wakeup,
            pin_pwrup: s.pin_pwrup,
            pin_vcom_ctrl: s.pin_vcom_ctrl,
        })
    }

    /// Writes `value` to `register`: one frame `[address, value]` to the chip's bus address.
    pub fn write_register(&mut self, register: Register, value: u8) -> (r: Result<(), Error<I2cErr, PinErr>>)
        requires
            old(self).wf(),
        ensures
            final(self).wf(),
            final(self).bus().len() == old(self).bus().len() + 1,
            final(self).bus().drop_last() == old(self).bus(),
            final(self).bus().last() is Write,
            final(self).bus().last()->Write_address == I2C_SLAVE_ADDRESS,
            final(self).bus().last()->Write_bytes == seq![address_of(register), value],
            r == write_result::<I2cErr, PinErr>(final(self).bus().last()->Write_outcome),
            final(self).wakeup_line() == old(self).wakeup_line(),
            final(self).pwrup_line() == old(self).pwrup_line(),
            final(self).vcom_line() == old(self).vcom_line(),
    {
        let bytes: [u8; 2] = [register.addr(), value];
        assert(bytes@ =~= seq![address_of(register), value]);
        match self.i2c.write_frame(I2C_SLAVE_ADDRESS, &bytes) {
            Ok(()) => Ok(()),
            Err(e) => Err(Error::I2c(e)),
        }
    }

    /// Reads one byte from `register`: the frame `[address]` written and one byte read back
    /// in a single transaction.
    pub fn read_register(&mut self, register: Register) -> (r: Result<u8, Error<I2cErr, PinErr>>)
        requires
            old(self).wf(),
        ensures
            final(self).wf(),
            one_register_read(old(self).bus(), final(self).bus(), register),
            r == read_result::<I2cErr, PinErr>(final(self).bus().last()->WriteRead_outcome),
            final(self).wakeup_line() == old(self).wakeup_line(),
            final(self).pwrup_line() == old(self).pwrup_line(),
            final(self).vcom_line() == old(self).vcom_line(),
    {
        let bytes: [u8; 1] = [register.addr()];
        assert(bytes@ =~= seq![address_of(register)]);
        let mut buffer: [u8; 1] = [0];
        let res = self.i2c.write_read_frame(I2C_SLAVE_ADDRESS, &bytes, &mut buffer);
        assert(self.bus().drop_last() =~= old(self).bus());
        match res {
            Ok(()) => Ok(buffer[0]),
            Err(e) => Err(Error::I2c(e)),
        }
    }
}

/// Going to sleep leaves the wake line low whatever was driven on it before.
pub proof fn lemma_sleep_drives_wakeup_low<E>(d: Seq<Drive<E>>)
    ensures
        last_level(d.push((Level::Low, Ok(())))) == Some(Level::Low),
{
}

/// Waking and then going back to sleep leaves the wake line at the level it had before the
/// wake, as long as that was low; in particular a controller that was constructed, woken and
/// put to sleep shows on the wake line the level of a freshly constructed one. (The other
/// lines are not driven by either transition.)
pub proof fn lemma_wake_then_sleep_restores_level<E>(d: Seq<Drive<E>>)
    requires
        last_level(d) == Some(Level::Low),
    ensures
        last_level(d.push((Level::High, Ok(()))).push((Level::Low, Ok(())))) == last_level(d),
        last_level((d + pulse::<E>(Level::Low, Level::Low)).push((Level::High, Ok(()))).push(
            (Level::Low, Ok(())),
        )) == last_level(d + pulse::<E>(Level::Low, Level::Low)),
{
    let c = d + pulse::<E>(Level::Low, Level::Low);
    assert(c.last() == (Level::Low, Ok::<(), E>(())));
}

/// A forced edge ends with that edge whatever came before, so two in a row give two full
/// pulses: the line is driven to `from` and then to `to` each time, even where it already
/// stood at `to`.
pub proof fn lemma_forced_edge_repeats<E>(d: Seq<Drive<E>>, from: Level, to: Level)
    ensures
        last_level(d + pulse::<E>(from, to)) == Some(to),
        (d + pulse::<E>(from, to) + pulse::<E>(from, to)).subrange(d.len() as int, d.len() + 4int)
            =~= seq![(from, Ok(())), (to, Ok(())), (from, Ok(())), (to, Ok(()))],
{
    assert((d + pulse::<E>(from, to)).last() == (to, Ok::<(), E>(())));
}

} // verus!
