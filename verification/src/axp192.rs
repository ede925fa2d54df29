//! Driver for the AXP192 power-management chip: supply rails, the
//! measurement converters, the power key.

use vstd::prelude::*;
use crate::bus::{
    failure, merged, read_outcome, register_read, register_write, script_run, write_failure,
    BusHandle, Exchange, Proxy, Step,
};
use crate::codec::{
    bat_current_ua, bat_voltage_uv, decode_12bit, decode_13bit, die_temperature_mc,
    vbus_current_ua, vbus_voltage_uv, voltage_field, voltage_field_spec, word12, word13,
};
use crate::misc::map_spec;
use crate::transport::{Error, Transport};

verus! {

/// Where the chip answers on the bus.
pub const AXP192_ADDRESS: u8 = 0x34;

/// Which board the chip sits on.
#[derive(Clone, Copy, Debug, PartialEq, Eq)]
pub enum Model {
    StickC,
    StickCPlus,
}

/// Which supplies to leave off when the chip is set up. By default none.
#[derive(Clone, Copy, Debug, PartialEq, Eq)]
pub struct BeginConf {
    pub disable_ldo2: bool,
    pub disable_ldo3: bool,
    pub disable_rtc: bool,
    pub disable_dcdc1: bool,
    pub disable_dcdc3: bool,
    pub disable_ldo0: bool,
}

impl Default for BeginConf {
    fn default() -> (conf: Self)
        ensures
            conf == BeginConf::default_conf(),
    {
        BeginConf {
            disable_ldo2: false,
            disable_ldo3: false,
            disable_rtc: false,
            disable_dcdc1: false,
            disable_dcdc3: false,
            disable_ldo0: false,
        }
    }
}

impl BeginConf {
    /// The configuration that leaves every supply on.
    pub open spec fn default_conf() -> BeginConf {
        BeginConf {
            disable_ldo2: false,
            disable_ldo3: false,
            disable_rtc: false,
            disable_dcdc1: false,
            disable_dcdc3: false,
            disable_ldo0: false,
        }
    }

    /// Whether all four switchable rails are to be left off.
    pub open spec fn all_rails_disabled(&self) -> bool {
        self.disable_ldo2 && self.disable_ldo3 && self.disable_dcdc1 && self.disable_dcdc3
    }
}

/// The bits of the rail register that setting up leaves as they are: the
/// upper four always, and the second converter's unless it is to be off.
pub open spec fn rail_keep(conf: BeginConf) -> u8 {
    if conf.disable_dcdc3 {
        0xF0
    } else {
        0xF2
    }
}

/// The bits of the rail register that setting up switches on.
pub open spec fn rail_set(conf: BeginConf) -> u8 {
    let ldo3: int = if conf.disable_ldo3 {
        0
    } else {
        8
    };
    let ldo2: int = if conf.disable_ldo2 {
        0
    } else {
        4
    };
    let dcdc1: int = if conf.disable_dcdc1 {
        0
    } else {
        1
    };
    (ldo3 + ldo2 + dcdc1) as u8
}

/// The two masks of the rail register: the bits to keep and the bits to
/// set.
pub fn rail_masks(conf: &BeginConf) -> (masks: (u8, u8))
    ensures
        masks.0 == rail_keep(*conf),
        masks.1 == rail_set(*conf),
{
    let keep: u8 = if conf.disable_dcdc3 {
        0xF0
    } else {
        0xF2
    };
    let mut set: u8 = 0;
    if !conf.disable_ldo3 {
        set = set + 8;
    }
    if !conf.disable_ldo2 {
        set = set + 4;
    }
    if !conf.disable_dcdc1 {
        set = set + 1;
    }
    (keep, set)
}

/// The new value of the rail register for its current value.
pub fn rail_enable(current: u8, conf: &BeginConf) -> (value: u8)
    ensures
        value == merged(current, rail_keep(*conf), rail_set(*conf)),
        value & 0xF0 == current & 0xF0,
        conf.all_rails_disabled() ==> value == current & 0xF0,
{
    let (keep, set) = rail_masks(conf);
    proof {
        rail_bits_outside_field_are_kept(current, *conf);
    }
    (current & keep) | set
}

/// Setting up the rails changes none of the upper four bits of the rail
/// register, whatever the configuration; with all four rails disabled it
/// clears the lower four and does nothing else.
pub proof fn rail_bits_outside_field_are_kept(current: u8, conf: BeginConf)
    ensures
        merged(current, rail_keep(conf), rail_set(conf)) & 0xF0 == current & 0xF0,
        conf.all_rails_disabled() ==> merged(current, rail_keep(conf), rail_set(conf)) == current
            & 0xF0,
{
    let keep = rail_keep(conf);
    let set = rail_set(conf);
    assert(((current & keep) | set) & 0xF0 == current & 0xF0) by (bit_vector)
        requires
            keep == 0xF0 || keep == 0xF2,
            set < 16,
    ;
    assert((current & 0xF0) | 0 == current & 0xF0) by (bit_vector);
}

/// The steps that set the chip up, in order.
pub open spec fn init_script(model: Model, conf: BeginConf) -> Seq<Step> {
    let s = seq![
        Step::Write { register: 0x28, value: 0xCC },
        Step::Write { register: 0x82, value: 0xFF },
        Step::Write { register: 0x33, value: 0xC0 },
        Step::Modify { register: 0x12, keep: rail_keep(conf), set: rail_set(conf) },
        Step::Write { register: 0x36, value: 0x0C },
    ];
    let s = if conf.disable_ldo0 {
        s.push(Step::Write { register: 0x90, value: 0x07 })
    } else {
        s.push(
            Step::Write {
                register: 0x91,
                value: if model == Model::StickCPlus {
                    0xF0
                } else {
                    0xA0
                },
            },
        ).push(Step::Write { register: 0x90, value: 0x02 })
    };
    let s = s.push(Step::Write { register: 0x30, value: 0x80 }).push(
        Step::Write { register: 0x39, value: 0xFC },
    ).push(
        Step::Write {
            register: 0x35,
            value: if conf.disable_rtc {
                0x22
            } else {
                0xA2
            },
        },
    ).push(Step::Write { register: 0x32, value: 0x46 });
    if model == Model::StickCPlus {
        s
    } else {
        s.push(Step::Modify { register: 0x31, keep: 0xF8, set: 0x04 })
    }
}

/// The steps that put the chip to sleep, in order: wake on a short key
/// press, float the auxiliary pin, stop the converters, switch off every
/// rail but the processor's.
pub open spec fn sleep_script() -> Seq<Step> {
    seq![
        Step::Modify { register: 0x31, keep: 0xFF, set: 0x08 },
        Step::Modify { register: 0x90, keep: 0xFF, set: 0x07 },
        Step::Write { register: 0x82, value: 0x00 },
        Step::Modify { register: 0x12, keep: 0xA1, set: 0x00 },
    ]
}

/// The supply of the backlight for a brightness, in millivolts.
pub open spec fn brightness_millivolts(brightness: int) -> int {
    map_spec(brightness, 0, 100, 2500, 3200)
}

/// The one step that sets the backlight: the voltage field goes into the
/// low four bits of the register, the upper four stay.
pub open spec fn brightness_script(brightness: int) -> Seq<Step> {
    seq![
        Step::Modify {
            register: 0x28,
            keep: 0xF0,
            set: voltage_field_spec(brightness_millivolts(brightness)) as u8,
        },
    ]
}

/// The steps that set the chip up, ready to be played.
pub fn init_steps(model: Model, conf: &BeginConf) -> (script: Vec<Step>)
    ensures
        script@ == init_script(model, *conf),
{
    let mut script: Vec<Step> = Vec::new();
    script.push(Step::Write { register: 0x28, value: 0xCC });
    script.push(Step::Write { register: 0x82, value: 0xFF });
    script.push(Step::Write { register: 0x33, value: 0xC0 });
    let (keep, set) = rail_masks(conf);
    script.push(Step::Modify { register: 0x12, keep, set });
    script.push(Step::Write { register: 0x36, value: 0x0C });
    if conf.disable_ldo0 {
        script.push(Step::Write { register: 0x90, value: 0x07 });
    } else {
        let level: u8 = match model {
            Model::StickCPlus => 0xF0,
            Model::StickC => 0xA0,
        };
        script.push(Step::Write { register: 0x91, value: level });
        script.push(Step::Write { register: 0x90, value: 0x02 });
    }
    script.push(Step::Write { register: 0x30, value: 0x80 });
    script.push(Step::Write { register: 0x39, value: 0xFC });
    let backup: u8 = if conf.disable_rtc {
        0x22
    } else {
        0xA2
    };
    script.push(Step::Write { register: 0x35, value: backup });
    script.push(Step::Write { register: 0x32, value: 0x46 });
    match model {
        Model::StickCPlus => {},
        Model::StickC => {
            script.push(Step::Modify { register: 0x31, keep: 0xF8, set: 0x04 });
        },
    }
    assert(script@ =~= init_script(model, *conf));
    script
}

/// The steps that put the chip to sleep, ready to be played.
pub fn sleep_steps() -> (script: Vec<Step>)
    ensures
        script@ == sleep_script(),
{
    let mut script: Vec<Step> = Vec::new();
    script.push(Step::Modify { register: 0x31, keep: 0xFF, set: 0x08 });
    script.push(Step::Modify { register: 0x90, keep: 0xFF, set: 0x07 });
    script.push(Step::Write { register: 0x82, value: 0x00 });
    script.push(Step::Modify { register: 0x12, keep: 0xA1, set: 0x00 });
    assert(script@ =~= sleep_script());
    script
}

/// The step that sets the backlight to `brightness`, ready to be played; a
/// brightness outside 0 to 100 is refused.
pub fn brightness_steps(brightness: i16) -> (r: Result<Vec<Step>, Error>)
    ensures
        !(0 <= brightness <= 100) ==> r == Err::<Vec<Step>, Error>(Error::Validation),
        0 <= brightness <= 100 ==> r is Ok && r->Ok_0@ == brightness_script(brightness as int),
{
    if brightness < 0 || brightness > 100 {
        return Err(Error::Validation);
    }
    assert((brightness - 0) * (3200 - 2500) == brightness * 700) by (nonlinear_arith);
    let millivolts = crate::misc::map(brightness as i64, 0, 100, 2500, 3200);
    let field = voltage_field(millivolts);
    let mut script: Vec<Step> = Vec::new();
    script.push(Step::Modify { register: 0x28, keep: 0xF0, set: field });
    assert(script@ =~= brightness_script(brightness as int));
    Ok(script)
}

/// What a read of `count` bytes that went through is turned into.
pub open spec fn measured<V>(data: Result<Seq<u8>, Error>, value: spec_fn(Seq<u8>) -> V) -> Result<
    V,
    Error,
> {
    match data {
        Ok(bytes) => Ok(value(bytes)),
        Err(e) => Err(e),
    }
}

/// The power-management chip, as seen through one proxy.
#[derive(Clone, Copy, Debug, PartialEq, Eq)]
pub struct Axp192 {
    port: Proxy,
    model: Model,
}

impl Axp192 {
    /// The proxy this driver talks through.
    pub closed spec fn port(&self) -> Proxy {
        self.port
    }

    /// The board this driver was set up for.
    pub closed spec fn model(&self) -> Model {
        self.model
    }

    /// Whether the bus saw exactly one read of `count` bytes at `register`
    /// since `earlier`.
    pub open spec fn read_once<T: Transport>(
        bus: &BusHandle<T>,
        earlier: Seq<Exchange>,
        register: u8,
        count: nat,
    ) -> bool {
        &&& bus.trail() == earlier.push(bus.trail().last())
        &&& bus.trail().last().request == register_read(AXP192_ADDRESS, register, count)
    }

    /// Sets the chip up: rail voltages, converters, charger, protection
    /// thresholds, power key timing. Stops at the first exchange that fails.
    pub fn new<T: Transport>(bus: &mut BusHandle<T>, port: Proxy, model: Model, conf: BeginConf) -> (r:
        Result<Axp192, Error>)
        ensures
            final(bus).id() == old(bus).id(),
            !old(bus).admits(port) ==> r == Err::<Axp192, Error>(Error::Resource) && final(
                bus).trail() == old(bus).trail(),
            old(bus).admits(port) ==> final(bus).extends(old(bus).trail()) && script_run(
                AXP192_ADDRESS,
                init_script(model, conf),
                final(bus).since(old(bus).trail()),
                failure(r),
            ),
            r is Ok ==> r->Ok_0.port() == port && r->Ok_0.model() == model,
    {
        let script = init_steps(model, &conf);
        match bus.run(port, AXP192_ADDRESS, &script) {
            Ok(()) => Ok(Axp192 { port, model }),
            Err(e) => Err(e),
        }
    }

    /// Sets the backlight, 0 for darkest to 100 for brightest. A value
    /// outside that range is refused before anything is sent.
    pub fn screen_breath<T: Transport>(&self, bus: &mut BusHandle<T>, brightness: i16) -> (r: Result<
        (),
        Error,
    >)
        ensures
            final(bus).id() == old(bus).id(),
            !(0 <= brightness <= 100) ==> r == Err::<(), Error>(Error::Validation) && final(
                bus).trail() == old(bus).trail(),
            0 <= brightness <= 100 && !old(bus).admits(self.port()) ==> r == Err::<(), Error>(
                Error::Resource,
            ) && final(bus).trail() == old(bus).trail(),
            0 <= brightness <= 100 && old(bus).admits(self.port()) ==> final(bus).extends(
                old(bus).trail(),
            ) && script_run(
                AXP192_ADDRESS,
                brightness_script(brightness as int),
                final(bus).since(old(bus).trail()),
                failure(r),
            ),
    {
        let script = brightness_steps(brightness)?;
        bus.run(self.port, AXP192_ADDRESS, &script)
    }

    /// Puts the chip to sleep. Stops at the first exchange that fails.
    pub fn set_sleep<T: Transport>(&self, bus: &mut BusHandle<T>) -> (r: Result<(), Error>)
        ensures
            final(bus).id() == old(bus).id(),
            !old(bus).admits(self.port()) ==> r == Err::<(), Error>(Error::Resource) && final(
                bus).trail() == old(bus).trail(),
            old(bus).admits(self.port()) ==> final(bus).extends(old(bus).trail()) && script_run(
                AXP192_ADDRESS,
                sleep_script(),
                final(bus).since(old(bus).trail()),
                failure(r),
            ),
    {
        let script = sleep_steps();
        bus.run(self.port, AXP192_ADDRESS, &script)
    }

    /// Reads the power key's latch: 0 for no press, 1 for a long press, 2
    /// for a short one. A latched press is cleared at once; if clearing it
    /// fails, the press is reported all the same.
    pub fn get_btn_press<T: Transport>(&self, bus: &mut BusHandle<T>) -> (r: Result<u8, Error>)
        ensures
            final(bus).id() == old(bus).id(),
            !old(bus).admits(self.port()) ==> r == Err::<u8, Error>(Error::Resource) && final(
                bus).trail() == old(bus).trail(),
            old(bus).admits(self.port()) ==> final(bus).extends(old(bus).trail()) && ({
                let run = final(bus).since(old(bus).trail());
                &&& run.len() >= 1
                &&& run[0].request == register_read(AXP192_ADDRESS, 0x46, 1)
                &&& match read_outcome(run[0].reply, 1) {
                    Err(e) => run.len() == 1 && r == Err::<u8, Error>(e),
                    Ok(bytes) => r == Ok::<u8, Error>(bytes[0]) && if bytes[0] > 0 {
                        run.len() == 2 && run[1].request == register_write(
                            AXP192_ADDRESS,
                            0x46,
                            0x03,
                        )
                    } else {
                        run.len() == 1
                    },
                }
            }),
    {
        let ghost start = bus.trail();
        let latch = self.read8bit(bus, 0x46);
        let ghost first = bus.trail().last();
        proof {
            if old(bus).admits(self.port()) {
                assert(bus.trail().take(start.len() as int) =~= start);
                assert(bus.since(start) =~= seq![first]);
            }
        }
        let state = latch?;
        if state > 0 {
            let _ = self.write(bus, 0x46, 0x03);
            assert(bus.trail().take(start.len() as int) =~= start);
            assert(bus.since(start) =~= seq![first, bus.trail().last()]);
        }
        Ok(state)
    }

    /// Battery voltage in microvolts.
    pub fn get_bat_voltage<T: Transport>(&self, bus: &mut BusHandle<T>) -> (r: Result<u32, Error>)
        ensures
            final(bus).id() == old(bus).id(),
            !old(bus).admits(self.port()) ==> r == Err::<u32, Error>(Error::Resource) && final(
                bus).trail() == old(bus).trail(),
            old(bus).admits(self.port()) ==> Self::read_once(final(bus), old(bus).trail(), 0x78, 2)
                && r == measured(
                read_outcome(final(bus).trail().last().reply, 2),
                |d: Seq<u8>| (word12(d[0], d[1]) * 1100) as u32,
            ),
    {
        let raw = self.read12bit(bus, 0x78)?;
        Ok(bat_voltage_uv(raw))
    }

    /// Battery current in microamperes: what flows in less what flows out,
    /// negative while discharging.
    pub fn get_bat_current<T: Transport>(&self, bus: &mut BusHandle<T>) -> (r: Result<i32, Error>)
        ensures
            final(bus).id() == old(bus).id(),
            !old(bus).admits(self.port()) ==> r == Err::<i32, Error>(Error::Resource) && final(
                bus).trail() == old(bus).trail(),
            old(bus).admits(self.port()) ==> final(bus).extends(old(bus).trail()) && ({
                let run = final(bus).since(old(bus).trail());
                &&& run.len() >= 1
                &&& run[0].request == register_read(AXP192_ADDRESS, 0x7A, 2)
                &&& match read_outcome(run[0].reply, 2) {
                    Err(e) => run.len() == 1 && r == Err::<i32, Error>(e),
                    Ok(inward) => {
                        &&& run.len() == 2
                        &&& run[1].request == register_read(AXP192_ADDRESS, 0x7C, 2)
                        &&& match read_outcome(run[1].reply, 2) {
                            Err(e) => r == Err::<i32, Error>(e),
                            Ok(outward) => r == Ok::<i32, Error>(
                                ((word13(inward[0], inward[1]) - word13(outward[0], outward[1]))
                                    * 500) as i32,
                            ),
                        }
                    },
                }
            }),
    {
        let ghost start = bus.trail();
        let inward = self.read13bit(bus, 0x7A);
        let ghost first = bus.trail().last();
        proof {
            if old(bus).admits(self.port()) {
                assert(bus.trail().take(start.len() as int) =~= start);
                assert(bus.since(start) =~= seq![first]);
            }
        }
        let current_in = inward?;
        let outward = self.read13bit(bus, 0x7C);
        assert(bus.trail().take(start.len() as int) =~= start);
        assert(bus.since(start) =~= seq![first, bus.trail().last()]);
        let current_out = outward?;
        Ok(bat_current_ua(current_in, current_out))
    }

    /// Supply voltage in microvolts.
    pub fn get_vbus_voltage<T: Transport>(&self, bus: &mut BusHandle<T>) -> (r: Result<u32, Error>)
        ensures
            final(bus).id() == old(bus).id(),
            !old(bus).admits(self.port()) ==> r == Err::<u32, Error>(Error::Resource) && final(
                bus).trail() == old(bus).trail(),
            old(bus).admits(self.port()) ==> Self::read_once(final(bus), old(bus).trail(), 0x5A, 2)
                && r == measured(
                read_outcome(final(bus).trail().last().reply, 2),
                |d: Seq<u8>| (word12(d[0], d[1]) * 1700) as u32,
            ),
    {
        let raw = self.read12bit(bus, 0x5A)?;
        Ok(vbus_voltage_uv(raw))
    }

    /// Supply current in microamperes.
    pub fn get_vbus_current<T: Transport>(&self, bus: &mut BusHandle<T>) -> (r: Result<u32, Error>)
        ensures
            final(bus).id() == old(bus).id(),
            !old(bus).admits(self.port()) ==> r == Err::<u32, Error>(Error::Resource) && final(
                bus).trail() == old(bus).trail(),
            old(bus).admits(self.port()) ==> Self::read_once(final(bus), old(bus).trail(), 0x5C, 2)
                && r == measured(
                read_outcome(final(bus).trail().last().reply, 2),
                |d: Seq<u8>| (word12(d[0], d[1]) * 375) as u32,
            ),
    {
        let raw = self.read12bit(bus, 0x5C)?;
        Ok(vbus_current_ua(raw))
    }

    /// Die temperature in thousandths of a degree Celsius.
    pub fn get_temp_in_axp192<T: Transport>(&self, bus: &mut BusHandle<T>) -> (r: Result<
        i32,
        Error,
    >)
        ensures
            final(bus).id() == old(bus).id(),
            !old(bus).admits(self.port()) ==> r == Err::<i32, Error>(Error::Resource) && final(
                bus).trail() == old(bus).trail(),
            old(bus).admits(self.port()) ==> Self::read_once(final(bus), old(bus).trail(), 0x5E, 2)
                && r == measured(
                read_outcome(final(bus).trail().last().reply, 2),
                |d: Seq<u8>| (word12(d[0], d[1]) * 100 - 144700) as i32,
            ),
    {
        let raw = self.read12bit(bus, 0x5E)?;
        Ok(die_temperature_mc(raw))
    }

    /// Sets one register of the chip.
    pub fn write<T: Transport>(&self, bus: &mut BusHandle<T>, register: u8, value: u8) -> (r: Result<
        (),
        Error,
    >)
        ensures
            final(bus).id() == old(bus).id(),
            !old(bus).admits(self.port()) ==> r == Err::<(), Error>(Error::Resource) && final(
                bus).trail() == old(bus).trail(),
            old(bus).admits(self.port()) ==> ({
                &&& final(bus).trail() == old(bus).trail().push(final(bus).trail().last())
                &&& final(bus).trail().last().request == register_write(
                    AXP192_ADDRESS,
                    register,
                    value,
                )
                &&& failure(r) == write_failure(final(bus).trail().last().reply)
            }),
    {
        bus.write_register(self.port, AXP192_ADDRESS, register, value)
    }

    /// Reads one register of the chip.
    pub fn read8bit<T: Transport>(&self, bus: &mut BusHandle<T>, register: u8) -> (r: Result<
        u8,
        Error,
    >)
        ensures
            final(bus).id() == old(bus).id(),
            !old(bus).admits(self.port()) ==> r == Err::<u8, Error>(Error::Resource) && final(
                bus).trail() == old(bus).trail(),
            old(bus).admits(self.port()) ==> Self::read_once(
                final(bus),
                old(bus).trail(),
                register,
                1,
            ) && r == measured(
                read_outcome(final(bus).trail().last().reply, 1),
                |d: Seq<u8>| d[0],
            ),
    {
        let bytes = bus.read_register(self.port, AXP192_ADDRESS, register, 1)?;
        Ok(bytes[0])
    }

    /// Reads a 12-bit measurement that starts at `register`.
    pub fn read12bit<T: Transport>(&self, bus: &mut BusHandle<T>, register: u8) -> (r: Result<
        u16,
        Error,
    >)
        ensures
            final(bus).id() == old(bus).id(),
            !old(bus).admits(self.port()) ==> r == Err::<u16, Error>(Error::Resource) && final(
                bus).trail() == old(bus).trail(),
            old(bus).admits(self.port()) ==> Self::read_once(
                final(bus),
                old(bus).trail(),
                register,
                2,
            ) && r == measured(
                read_outcome(final(bus).trail().last().reply, 2),
                |d: Seq<u8>| word12(d[0], d[1]) as u16,
            ),
    {
        let bytes = bus.read_register(self.port, AXP192_ADDRESS, register, 2)?;
        Ok(decode_12bit(bytes[0], bytes[1]))
    }

    /// Reads a 13-bit measurement that starts at `register`.
    pub fn read13bit<T: Transport>(&self, bus: &mut BusHandle<T>, register: u8) -> (r: Result<
        u16,
        Error,
    >)
        ensures
            final(bus).id() == old(bus).id(),
            !old(bus).admits(self.port()) ==> r == Err::<u16, Error>(Error::Resource) && final(
                bus).trail() == old(bus).trail(),
            old(bus).admits(self.port()) ==> Self::read_once(
                final(bus),
                old(bus).trail(),
                register,
                2,
            ) && r == measured(
                read_outcome(final(bus).trail().last().reply, 2),
                |d: Seq<u8>| word13(d[0], d[1]) as u16,
            ),
    {
        let bytes = bus.read_register(self.port, AXP192_ADDRESS, register, 2)?;
        Ok(decode_13bit(bytes[0], bytes[1]))
    }
}

} // verus!
