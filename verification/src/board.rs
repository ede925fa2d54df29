//! The whole board: the bus with the power chip and the motion sensor on
//! it, the two buttons, the panel.

use vstd::prelude::*;
use crate::axp192::{init_script, Axp192, BeginConf, Model, AXP192_ADDRESS};
use crate::bus::{failure, script_run, BusHandle, BusRegistry, Exchange};
use crate::button::{initial, polled, Button};
use crate::display::{encoded, flush_failure, Display, Flush, Panel};
use crate::display_buffer::DisplayBuffer;
use crate::mpu6886::MPU6886;
use crate::transport::{DisplayTransport, Error, Transport};

verus! {

/// The identity of the bus that the two chips share.
pub const I2C1: u8 = 1;

/// The debounce window of the two buttons, in milliseconds.
pub const BUTTON_DEBOUNCE_MS: u32 = 10;

/// What the board is made from: the capabilities that reach its hardware,
/// and what its inputs read when it is put together.
pub struct M5Peripherals<T, D> {
    /// The transport of the shared bus.
    pub i2c1: T,
    /// The transport of the panel.
    pub lcd: D,
    /// Which board this is.
    pub model: Model,
    /// The level on the pin of button A.
    pub level_a: bool,
    /// The level on the pin of button B.
    pub level_b: bool,
    /// The time, in milliseconds.
    pub now: u32,
}

/// The board. The drivers talk through `i2c1`, which is handed to each of
/// their operations; who holds the board holds the bus.
pub struct M5<T, D> {
    pub i2c1: BusHandle<T>,
    pub axp: Axp192,
    pub imu: MPU6886,
    pub btn_a: Button,
    pub btn_b: Button,
    pub lcd: Display<D>,
}

/// The panel a board is built with.
pub open spec fn panel_of(model: Model) -> Panel {
    match model {
        Model::StickC => Panel::St7735,
        Model::StickCPlus => Panel::St7789,
    }
}

impl<T: Transport, D: DisplayTransport> M5<T, D> {
    /// Whether this is the board as `new` leaves it for the given inputs,
    /// the power chip set up without a failure.
    pub open spec fn fresh(&self, model: Model, level_a: bool, level_b: bool, now: u32) -> bool {
        &&& self.i2c1.id() == I2C1
        &&& script_run(
            AXP192_ADDRESS,
            init_script(model, BeginConf::default_conf()),
            self.i2c1.trail(),
            None,
        )
        &&& self.i2c1.admits(self.axp.port())
        &&& self.axp.model() == model
        &&& self.i2c1.admits(self.imu.port())
        &&& self.imu.gyro_range() == 0
        &&& self.imu.accel_range() == 0
        &&& self.btn_a.invert()
        &&& self.btn_a.db_time() == BUTTON_DEBOUNCE_MS
        &&& self.btn_a.memory() == initial(level_a, true, now)
        &&& self.btn_b.invert()
        &&& self.btn_b.db_time() == BUTTON_DEBOUNCE_MS
        &&& self.btn_b.memory() == initial(level_b, true, now)
        &&& self.lcd.panel() == panel_of(model)
        &&& self.lcd.sent() == Seq::<Flush>::empty()
    }

    /// Puts the board together: claims the bus, sets the power chip up with
    /// every supply on, and prepares the sensor driver, the two buttons
    /// (pressed when their pin is low) and the panel adapter.
    ///
    /// The bus can be claimed once. If the power chip cannot be set up the
    /// board is not made, and the failure is reported.
    pub fn new(registry: &mut BusRegistry, peripherals: M5Peripherals<T, D>) -> (r: Result<
        Self,
        Error,
    >)
        ensures
            old(registry)@.contains(I2C1) ==> r is Err && r->Err_0 == Error::Resource && final(
                registry)@ == old(registry)@,
            !old(registry)@.contains(I2C1) ==> final(registry)@ == old(registry)@.insert(I2C1)
                && match r {
                Ok(board) => board.fresh(
                    peripherals.model,
                    peripherals.level_a,
                    peripherals.level_b,
                    peripherals.now,
                ),
                Err(e) => exists|run: Seq<Exchange>|
                    script_run(
                        AXP192_ADDRESS,
                        init_script(peripherals.model, BeginConf::default_conf()),
                        run,
                        Some(e),
                    ),
            },
    {
        let M5Peripherals { i2c1: wire, lcd: panel_link, model, level_a, level_b, now } =
            peripherals;
        let mut i2c1 = match registry.acquire(I2C1, wire) {
            Ok(handle) => handle,
            Err(e) => {
                return Err(e);
            },
        };
        let port = i2c1.derive_proxy();
        let axp = match Axp192::new(&mut i2c1, port, model, BeginConf::default()) {
            Ok(chip) => chip,
            Err(e) => {
                assert(i2c1.since(Seq::<Exchange>::empty()) =~= i2c1.trail());
                assert(script_run(
                    AXP192_ADDRESS,
                    init_script(model, BeginConf::default_conf()),
                    i2c1.trail(),
                    Some(e),
                ));
                return Err(e);
            },
        };
        assert(i2c1.since(Seq::<Exchange>::empty()) =~= i2c1.trail());
        let imu = MPU6886::new(i2c1.derive_proxy());
        let btn_a = Button::new(level_a, true, BUTTON_DEBOUNCE_MS, now);
        let btn_b = Button::new(level_b, true, BUTTON_DEBOUNCE_MS, now);
        let panel = match model {
            Model::StickC => Panel::St7735,
            Model::StickCPlus => Panel::St7789,
        };
        let lcd = Display::new(panel, panel_link);
        Ok(M5 { i2c1, axp, imu, btn_a, btn_b, lcd })
    }

    /// The bus.
    pub fn i2c1(&self) -> (bus: &BusHandle<T>)
        ensures
            *bus == self.i2c1,
    {
        &self.i2c1
    }

    /// The power chip's driver.
    pub fn axp(&self) -> (chip: &Axp192)
        ensures
            *chip == self.axp,
    {
        &self.axp
    }

    /// The motion sensor's driver.
    pub fn imu(&self) -> (sensor: &MPU6886)
        ensures
            *sensor == self.imu,
    {
        &self.imu
    }

    /// Button A.
    pub fn btn_a(&self) -> (button: &Button)
        ensures
            *button == self.btn_a,
    {
        &self.btn_a
    }

    /// Button B.
    pub fn btn_b(&self) -> (button: &Button)
        ensures
            *button == self.btn_b,
    {
        &self.btn_b
    }

    /// The panel adapter.
    pub fn lcd(&self) -> (panel: &Display<D>)
        ensures
            *panel == self.lcd,
    {
        &self.lcd
    }

    /// Sends a frame to the panel; see `Display::draw`.
    pub fn draw(&mut self, display_buffer: &DisplayBuffer) -> (r: Result<(), Error>)
        ensures
            final(self).i2c1 == old(self).i2c1,
            final(self).axp == old(self).axp,
            final(self).imu == old(self).imu,
            final(self).btn_a == old(self).btn_a,
            final(self).btn_b == old(self).btn_b,
            final(self).lcd.panel() == old(self).lcd.panel(),
            final(self).lcd.sent() == old(self).lcd.sent().push(final(self).lcd.sent().last()),
            final(self).lcd.sent().last().window == old(self).lcd.panel().spec_window(),
            final(self).lcd.sent().last().payload == encoded(
                old(self).lcd.panel(),
                display_buffer.cells(),
            ),
            failure(r) == flush_failure(final(self).lcd.sent().last().reply),
    {
        self.lcd.draw(display_buffer)
    }

    /// Polls both buttons with the levels sampled at `now`. The clock must
    /// not have run backwards since the last poll.
    pub fn update(&mut self, level_a: bool, level_b: bool, now: u32)
        requires
            old(self).btn_a.memory().time <= now,
            old(self).btn_b.memory().time <= now,
        ensures
            final(self).i2c1 == old(self).i2c1,
            final(self).axp == old(self).axp,
            final(self).imu == old(self).imu,
            final(self).lcd == old(self).lcd,
            final(self).btn_a.invert() == old(self).btn_a.invert(),
            final(self).btn_a.db_time() == old(self).btn_a.db_time(),
            final(self).btn_a.memory() == polled(
                old(self).btn_a.memory(),
                old(self).btn_a.invert(),
                old(self).btn_a.db_time(),
                level_a,
                now,
            ),
            final(self).btn_b.invert() == old(self).btn_b.invert(),
            final(self).btn_b.db_time() == old(self).btn_b.db_time(),
            final(self).btn_b.memory() == polled(
                old(self).btn_b.memory(),
                old(self).btn_b.invert(),
                old(self).btn_b.db_time(),
                level_b,
                now,
            ),
    {
        self.btn_a.read(level_a, now);
        self.btn_b.read(level_b, now);
    }
}

} // verus!
