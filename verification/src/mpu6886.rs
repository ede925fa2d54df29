//! Driver for the MPU6886 motion sensor: three axes of rotation, three of
//! acceleration.
//!
//! A reading is a raw sample multiplied by the full-scale range in force;
//! divided by 32768 it is the physical value (degrees per second, or g).

use vstd::prelude::*;
use crate::bus::{
    failure, lemma_plain_run_len, lemma_run_joined, lemma_run_stopped, plain, read_outcome,
    register_read, register_write, script_run, write_failure, BusHandle, Exchange, Proxy, Reply,
    Request, Step,
};
use crate::codec::{decode_i16, signed16};
use crate::transport::{Error, Transport};

verus! {

/// Where the sensor answers on the bus.
pub const MPU6886_ADDRESS: u8 = 0x68;

/// The identity register, and what the sensor must answer there.
pub const MPU6886_WHOAMI: u8 = 0x75;

pub const MPU6886_IDENTITY: u8 = 0x19;

pub const MPU6886_SMPLRT_DIV: u8 = 0x19;

pub const MPU6886_CONFIG: u8 = 0x1A;

pub const MPU6886_GYRO_CONFIG: u8 = 0x1B;

pub const MPU6886_ACCEL_CONFIG: u8 = 0x1C;

pub const MPU6886_ACCEL_CONFIG2: u8 = 0x1D;

pub const MPU6886_FIFO_EN: u8 = 0x23;

pub const MPU6886_INT_PIN_CFG: u8 = 0x37;

pub const MPU6886_INT_ENABLE: u8 = 0x38;

pub const MPU6886_USER_CTRL: u8 = 0x6A;

pub const MPU6886_PWR_MGMT_1: u8 = 0x6B;

pub const MPU6886_ACCEL_XOUT_H: u8 = 0x3B;

pub const MPU6886_GYRO_XOUT_H: u8 = 0x43;

/// Full-scale range of the accelerometer.
#[derive(Clone, Copy, Debug, PartialEq, Eq)]
pub enum Ascale {
    Afs2g,
    Afs4g,
    Afs8g,
    Afs16g,
}

/// Full-scale range of the gyroscope.
#[derive(Clone, Copy, Debug, PartialEq, Eq)]
pub enum Gscale {
    Gfs250dps,
    Gfs500dps,
    Gfs1000dps,
    Gfs2000dps,
}

impl Ascale {
    /// The range in g.
    pub open spec fn range(self) -> int {
        match self {
            Ascale::Afs2g => 2,
            Ascale::Afs4g => 4,
            Ascale::Afs8g => 8,
            Ascale::Afs16g => 16,
        }
    }

    /// The value of the selector register: the range's number, three bits
    /// up.
    pub open spec fn selector(self) -> u8 {
        match self {
            Ascale::Afs2g => 0x00,
            Ascale::Afs4g => 0x08,
            Ascale::Afs8g => 0x10,
            Ascale::Afs16g => 0x18,
        }
    }
}

impl Gscale {
    /// The range in degrees per second.
    pub open spec fn range(self) -> int {
        match self {
            Gscale::Gfs250dps => 250,
            Gscale::Gfs500dps => 500,
            Gscale::Gfs1000dps => 1000,
            Gscale::Gfs2000dps => 2000,
        }
    }

    /// The value of the selector register: the range's number, three bits
    /// up.
    pub open spec fn selector(self) -> u8 {
        match self {
            Gscale::Gfs250dps => 0x00,
            Gscale::Gfs500dps => 0x08,
            Gscale::Gfs1000dps => 0x10,
            Gscale::Gfs2000dps => 0x18,
        }
    }
}

/// The steps that configure the sensor once its identity is confirmed, each
/// write after the pause its predecessor needs: wake, reset, pick the clock,
/// provisional ranges, filter, sample rate, interrupts off, buffers off,
/// interrupt pin, data-ready interrupt on.
pub open spec fn config_script() -> Seq<Step> {
    seq![
        Step::Pause { ms: 1 },
        Step::Write { register: MPU6886_PWR_MGMT_1, value: 0x00 },
        Step::Pause { ms: 10 },
        Step::Write { register: MPU6886_PWR_MGMT_1, value: 0x80 },
        Step::Pause { ms: 10 },
        Step::Write { register: MPU6886_PWR_MGMT_1, value: 0x01 },
        Step::Pause { ms: 10 },
        Step::Write { register: MPU6886_ACCEL_CONFIG, value: 0x10 },
        Step::Pause { ms: 1 },
        Step::Write { register: MPU6886_GYRO_CONFIG, value: 0x18 },
        Step::Pause { ms: 1 },
        Step::Write { register: MPU6886_CONFIG, value: 0x01 },
        Step::Pause { ms: 1 },
        Step::Write { register: MPU6886_SMPLRT_DIV, value: 0x05 },
        Step::Pause { ms: 1 },
        Step::Write { register: MPU6886_INT_ENABLE, value: 0x00 },
        Step::Pause { ms: 1 },
        Step::Write { register: MPU6886_ACCEL_CONFIG2, value: 0x00 },
        Step::Pause { ms: 1 },
        Step::Write { register: MPU6886_USER_CTRL, value: 0x00 },
        Step::Pause { ms: 1 },
        Step::Write { register: MPU6886_FIFO_EN, value: 0x00 },
        Step::Pause { ms: 1 },
        Step::Write { register: MPU6886_INT_PIN_CFG, value: 0x22 },
        Step::Pause { ms: 1 },
        Step::Write { register: MPU6886_INT_ENABLE, value: 0x01 },
        Step::Pause { ms: 100 },
    ]
}

/// The steps that set the default ranges: 2000 degrees per second, and 8 g
/// after a pause.
pub open spec fn ranges_script() -> Seq<Step> {
    seq![
        Step::Write { register: MPU6886_GYRO_CONFIG, value: Gscale::Gfs2000dps.selector() },
        Step::Pause { ms: 10 },
        Step::Write { register: MPU6886_ACCEL_CONFIG, value: Ascale::Afs8g.selector() },
    ]
}

/// Everything `init` sends after the identity check.
pub open spec fn init_script() -> Seq<Step> {
    config_script() + ranges_script()
}

/// Where in a run of `init` the write of the gyroscope's range stands: after
/// the identity read and the configuration.
pub open spec fn gyro_range_exchange() -> int {
    1 + config_script().len() as int
}

/// Three samples, each two bytes with the most significant first, each
/// multiplied by `range`.
pub open spec fn scaled_triple(bytes: Seq<u8>, range: int) -> (int, int, int) {
    (
        signed16(bytes[0], bytes[1]) * range,
        signed16(bytes[2], bytes[3]) * range,
        signed16(bytes[4], bytes[5]) * range,
    )
}

/// What a burst of six bytes, or the failure to read it, is reported as.
pub open spec fn reading(data: Result<Seq<u8>, Error>, range: int) -> Result<
    (i32, i32, i32),
    Error,
> {
    match data {
        Ok(bytes) => Ok(
            (
                scaled_triple(bytes, range).0 as i32,
                scaled_triple(bytes, range).1 as i32,
                scaled_triple(bytes, range).2 as i32,
            ),
        ),
        Err(e) => Err(e),
    }
}

/// The motion sensor, as seen through one proxy.
#[derive(Clone, Copy, Debug, PartialEq, Eq)]
pub struct MPU6886 {
    port: Proxy,
    gyro_range: u16,
    accel_range: u16,
}

impl MPU6886 {
    /// The proxy this driver talks through.
    pub closed spec fn port(&self) -> Proxy {
        self.port
    }

    /// The gyroscope's range in degrees per second; 0 until one is set.
    pub closed spec fn gyro_range(&self) -> int {
        self.gyro_range as int
    }

    /// The accelerometer's range in g; 0 until one is set.
    pub closed spec fn accel_range(&self) -> int {
        self.accel_range as int
    }

    /// What holds of every driver value: its ranges are ones the sensor
    /// has, or none yet.
    #[verifier::type_invariant]
    closed spec fn ranges_known(&self) -> bool {
        self.gyro_range <= 2000 && self.accel_range <= 16
    }

    /// A driver for the sensor behind `port`. Nothing is sent; no range is
    /// set, so readings are zero until `init` or a range setter has run.
    pub fn new(port: Proxy) -> (sensor: Self)
        ensures
            sensor.port() == port,
            sensor.gyro_range() == 0,
            sensor.accel_range() == 0,
    {
        MPU6886 { port, gyro_range: 0, accel_range: 0 }
    }

    /// The gyroscope's range in degrees per second; 0 until one is set.
    pub fn gyro_full_scale(&self) -> (dps: u16)
        ensures
            dps == self.gyro_range(),
    {
        self.gyro_range
    }

    /// The accelerometer's range in g; 0 until one is set.
    pub fn accel_full_scale(&self) -> (g: u16)
        ensures
            g == self.accel_range(),
    {
        self.accel_range
    }

    /// Checks that the device is an MPU6886, configures it, and sets the
    /// default ranges. A device that answers with another identity is left
    /// alone: nothing is written to it.
    pub fn init<T: Transport>(&mut self, bus: &mut BusHandle<T>) -> (r: Result<(), Error>)
        ensures
            final(bus).id() == old(bus).id(),
            final(self).port() == old(self).port(),
            !old(bus).admits(old(self).port()) ==> ({
                &&& r == Err::<(), Error>(Error::Resource)
                &&& final(bus).trail() == old(bus).trail()
                &&& *final(self) == *old(self)
            }),
            old(bus).admits(old(self).port()) ==> final(bus).extends(old(bus).trail()) && ({
                let run = final(bus).since(old(bus).trail());
                &&& run.len() >= 1
                &&& run[0].request == register_read(MPU6886_ADDRESS, MPU6886_WHOAMI, 1)
                &&& match read_outcome(run[0].reply, 1) {
                    Err(e) => run.len() == 1 && r == Err::<(), Error>(e) && *final(self) == *old(
                        self),
                    Ok(identity) => if identity[0] != MPU6886_IDENTITY {
                        run.len() == 1 && r == Err::<(), Error>(Error::Protocol) && *final(self)
                            == *old(self)
                    } else {
                        &&& script_run(MPU6886_ADDRESS, init_script(), run.skip(1), failure(r))
                        &&& final(self).gyro_range() == if run.len() > gyro_range_exchange()
                            && run[gyro_range_exchange()].reply is Done {
                            Gscale::Gfs2000dps.range()
                        } else {
                            old(self).gyro_range()
                        }
                        &&& final(self).accel_range() == if r is Ok {
                            Ascale::Afs8g.range()
                        } else {
                            old(self).accel_range()
                        }
                    },
                }
            }),
    {
        let ghost start = bus.trail();
        let answer = bus.read_register(self.port, MPU6886_ADDRESS, MPU6886_WHOAMI, 1);
        let ghost asked = bus.trail();
        proof {
            if old(bus).admits(self.port()) {
                assert(asked.take(start.len() as int) =~= start);
                assert(bus.since(start) =~= seq![asked.last()]);
            }
        }
        let identity = answer?;
        if identity[0] != MPU6886_IDENTITY {
            return Err(Error::Protocol);
        }
        let script = Self::config_steps();
        let configured = bus.run(self.port, MPU6886_ADDRESS, &script);
        let ghost set_up = bus.trail();
        let ghost first = set_up.skip(asked.len() as int);
        proof {
            assert(set_up.take(start.len() as int) =~= start);
            assert(bus.since(start).skip(1) =~= first);
            assert(bus.since(start)[0] == asked.last());
            assert(plain(config_script()));
            lemma_plain_run_len(MPU6886_ADDRESS, config_script(), first, failure(configured));
            if configured is Err {
                lemma_run_stopped(
                    MPU6886_ADDRESS,
                    config_script(),
                    ranges_script(),
                    first,
                    configured->Err_0,
                );
            }
        }
        configured?;
        let gyro = self.set_gyro_fsr(bus, Gscale::Gfs2000dps);
        let ghost ranged = bus.trail();
        proof {
            assert(ranged.take(start.len() as int) =~= start);
            assert(bus.since(start)[0] == asked.last());
            assert(bus.since(start).skip(1) =~= first + seq![ranged.last()]);
            assert(bus.since(start)[gyro_range_exchange()] == ranged.last());
            if gyro is Err {
                assert(script_run(
                    MPU6886_ADDRESS,
                    ranges_script(),
                    seq![ranged.last()],
                    failure(gyro),
                ));
                lemma_run_joined(
                    MPU6886_ADDRESS,
                    config_script(),
                    ranges_script(),
                    first,
                    seq![ranged.last()],
                    failure(gyro),
                );
            }
        }
        gyro?;
        let _ = bus.settle(self.port, 10);
        let ghost paused = bus.trail();
        let accel = self.set_accel_fsr(bus, Ascale::Afs8g);
        proof {
            let last = seq![ranged.last(), paused.last(), bus.trail().last()];
            assert(bus.trail().take(start.len() as int) =~= start);
            assert(bus.since(start)[0] == asked.last());
            assert(bus.since(start).skip(1) =~= first + last);
            assert(bus.since(start)[gyro_range_exchange()] == ranged.last());
            reveal_with_fuel(script_run, 4);
            assert(last.skip(1).skip(1).skip(1) =~= Seq::<Exchange>::empty());
            assert(script_run(MPU6886_ADDRESS, ranges_script(), last, failure(accel)));
            lemma_run_joined(
                MPU6886_ADDRESS,
                config_script(),
                ranges_script(),
                first,
                last,
                failure(accel),
            );
        }
        accel
    }

    /// The configuration steps, ready to be played.
    pub fn config_steps() -> (script: Vec<Step>)
        ensures
            script@ == config_script(),
    {
        let mut script: Vec<Step> = Vec::new();
        script.push(Step::Pause { ms: 1 });
        script.push(Step::Write { register: MPU6886_PWR_MGMT_1, value: 0x00 });
        script.push(Step::Pause { ms: 10 });
        script.push(Step::Write { register: MPU6886_PWR_MGMT_1, value: 0x80 });
        script.push(Step::Pause { ms: 10 });
        script.push(Step::Write { register: MPU6886_PWR_MGMT_1, value: 0x01 });
        script.push(Step::Pause { ms: 10 });
        script.push(Step::Write { register: MPU6886_ACCEL_CONFIG, value: 0x10 });
        script.push(Step::Pause { ms: 1 });
        script.push(Step::Write { register: MPU6886_GYRO_CONFIG, value: 0x18 });
        script.push(Step::Pause { ms: 1 });
        script.push(Step::Write { register: MPU6886_CONFIG, value: 0x01 });
        script.push(Step::Pause { ms: 1 });
        script.push(Step::Write { register: MPU6886_SMPLRT_DIV, value: 0x05 });
        script.push(Step::Pause { ms: 1 });
        script.push(Step::Write { register: MPU6886_INT_ENABLE, value: 0x00 });
        script.push(Step::Pause { ms: 1 });
        script.push(Step::Write { register: MPU6886_ACCEL_CONFIG2, value: 0x00 });
        script.push(Step::Pause { ms: 1 });
        script.push(Step::Write { register: MPU6886_USER_CTRL, value: 0x00 });
        script.push(Step::Pause { ms: 1 });
        script.push(Step::Write { register: MPU6886_FIFO_EN, value: 0x00 });
        script.push(Step::Pause { ms: 1 });
        script.push(Step::Write { register: MPU6886_INT_PIN_CFG, value: 0x22 });
        script.push(Step::Pause { ms: 1 });
        script.push(Step::Write { register: MPU6886_INT_ENABLE, value: 0x01 });
        script.push(Step::Pause { ms: 100 });
        assert(script@ =~= config_script());
        script
    }

    /// Selects the gyroscope's full-scale range. The range takes effect in
    /// the readings if, and only if, the sensor accepted it.
    pub fn set_gyro_fsr<T: Transport>(&mut self, bus: &mut BusHandle<T>, scale: Gscale) -> (r:
        Result<(), Error>)
        ensures
            final(bus).id() == old(bus).id(),
            final(self).port() == old(self).port(),
            final(self).accel_range() == old(self).accel_range(),
            !old(bus).admits(old(self).port()) ==> ({
                &&& r == Err::<(), Error>(Error::Resource)
                &&& final(bus).trail() == old(bus).trail()
                &&& final(self).gyro_range() == old(self).gyro_range()
            }),
            old(bus).admits(old(self).port()) ==> ({
                &&& final(bus).trail() == old(bus).trail().push(final(bus).trail().last())
                &&& final(bus).trail().last().request == register_write(
                    MPU6886_ADDRESS,
                    MPU6886_GYRO_CONFIG,
                    scale.selector(),
                )
                &&& failure(r) == write_failure(final(bus).trail().last().reply)
                &&& final(self).gyro_range() == if final(bus).trail().last().reply is Done {
                    scale.range()
                } else {
                    old(self).gyro_range()
                }
            }),
    {
        proof {
            use_type_invariant(&*self);
        }
        let (selector, range): (u8, u16) = match scale {
            Gscale::Gfs250dps => (0x00, 250),
            Gscale::Gfs500dps => (0x08, 500),
            Gscale::Gfs1000dps => (0x10, 1000),
            Gscale::Gfs2000dps => (0x18, 2000),
        };
        bus.write_register(self.port, MPU6886_ADDRESS, MPU6886_GYRO_CONFIG, selector)?;
        self.gyro_range = range;
        Ok(())
    }

    /// Selects the accelerometer's full-scale range. The range takes effect
    /// in the readings if, and only if, the sensor accepted it.
    pub fn set_accel_fsr<T: Transport>(&mut self, bus: &mut BusHandle<T>, scale: Ascale) -> (r:
        Result<(), Error>)
        ensures
            final(bus).id() == old(bus).id(),
            final(self).port() == old(self).port(),
            final(self).gyro_range() == old(self).gyro_range(),
            !old(bus).admits(old(self).port()) ==> ({
                &&& r == Err::<(), Error>(Error::Resource)
                &&& final(bus).trail() == old(bus).trail()
                &&& final(self).accel_range() == old(self).accel_range()
            }),
            old(bus).admits(old(self).port()) ==> ({
                &&& final(bus).trail() == old(bus).trail().push(final(bus).trail().last())
                &&& final(bus).trail().last().request == register_write(
                    MPU6886_ADDRESS,
                    MPU6886_ACCEL_CONFIG,
                    scale.selector(),
                )
                &&& failure(r) == write_failure(final(bus).trail().last().reply)
                &&& final(self).accel_range() == if final(bus).trail().last().reply is Done {
                    scale.range()
                } else {
                    old(self).accel_range()
                }
            }),
    {
        proof {
            use_type_invariant(&*self);
        }
        let (selector, range): (u8, u16) = match scale {
            Ascale::Afs2g => (0x00, 2),
            Ascale::Afs4g => (0x08, 4),
            Ascale::Afs8g => (0x10, 8),
            Ascale::Afs16g => (0x18, 16),
        };
        bus.write_register(self.port, MPU6886_ADDRESS, MPU6886_ACCEL_CONFIG, selector)?;
        self.accel_range = range;
        Ok(())
    }

    /// Reads the three rotation rates in one burst. Each is the raw sample
    /// times the range in degrees per second: 32768 stands for the full
    /// range.
    pub fn get_gyro_data<T: Transport>(&self, bus: &mut BusHandle<T>) -> (r: Result<
        (i32, i32, i32),
        Error,
    >)
        ensures
            final(bus).id() == old(bus).id(),
            !old(bus).admits(self.port()) ==> r == Err::<(i32, i32, i32), Error>(Error::Resource)
                && final(bus).trail() == old(bus).trail(),
            old(bus).admits(self.port()) ==> ({
                &&& final(bus).trail() == old(bus).trail().push(final(bus).trail().last())
                &&& final(bus).trail().last().request == register_read(
                    MPU6886_ADDRESS,
                    MPU6886_GYRO_XOUT_H,
                    6,
                )
                &&& r == reading(
                    read_outcome(final(bus).trail().last().reply, 6),
                    self.gyro_range(),
                )
            }),
    {
        proof {
            use_type_invariant(self);
        }
        let bytes = bus.read_register(self.port, MPU6886_ADDRESS, MPU6886_GYRO_XOUT_H, 6)?;
        Ok(Self::scale_burst(&bytes, self.gyro_range))
    }

    /// Reads the three accelerations in one burst. Each is the raw sample
    /// times the range in g: 32768 stands for the full range.
    pub fn get_accel_data<T: Transport>(&self, bus: &mut BusHandle<T>) -> (r: Result<
        (i32, i32, i32),
        Error,
    >)
        ensures
            final(bus).id() == old(bus).id(),
            !old(bus).admits(self.port()) ==> r == Err::<(i32, i32, i32), Error>(Error::Resource)
                && final(bus).trail() == old(bus).trail(),
            old(bus).admits(self.port()) ==> ({
                &&& final(bus).trail() == old(bus).trail().push(final(bus).trail().last())
                &&& final(bus).trail().last().request == register_read(
                    MPU6886_ADDRESS,
                    MPU6886_ACCEL_XOUT_H,
                    6,
                )
                &&& r == reading(
                    read_outcome(final(bus).trail().last().reply, 6),
                    self.accel_range(),
                )
            }),
    {
        proof {
            use_type_invariant(self);
        }
        let bytes = bus.read_register(self.port, MPU6886_ADDRESS, MPU6886_ACCEL_XOUT_H, 6)?;
        Ok(Self::scale_burst(&bytes, self.accel_range))
    }

    /// Reassembles the three samples of a burst and multiplies each by the
    /// range.
    pub fn scale_burst(bytes: &Vec<u8>, range: u16) -> (triple: (i32, i32, i32))
        requires
            bytes@.len() == 6,
            range <= 2000,
        ensures
            triple.0 == scaled_triple(bytes@, range as int).0,
            triple.1 == scaled_triple(bytes@, range as int).1,
            triple.2 == scaled_triple(bytes@, range as int).2,
    {
        let x = decode_i16(bytes[0], bytes[1]);
        let y = decode_i16(bytes[2], bytes[3]);
        let z = decode_i16(bytes[4], bytes[5]);
        let factor = range as i32;
        assert(-65536000 <= x * factor <= 65536000) by (nonlinear_arith)
            requires
                -32768 <= x <= 32767,
                0 <= factor <= 2000,
        ;
        assert(-65536000 <= y * factor <= 65536000) by (nonlinear_arith)
            requires
                -32768 <= y <= 32767,
                0 <= factor <= 2000,
        ;
        assert(-65536000 <= z * factor <= 65536000) by (nonlinear_arith)
            requires
                -32768 <= z <= 32767,
                0 <= factor <= 2000,
        ;
        ((x as i32) * factor, (y as i32) * factor, (z as i32) * factor)
    }
}

} // verus!
