use std::cell::RefCell;
use std::rc::Rc;

use m5stickc::axp192::{
    brightness_steps, init_steps, rail_enable, rail_masks, sleep_steps, Axp192, BeginConf, Model,
    AXP192_ADDRESS,
};
use m5stickc::bus::{BusHandle, BusRegistry, Step};
use m5stickc::transport::{Error, Transport, TransportError};

#[derive(Clone, Debug, PartialEq, Eq)]
enum Seen {
    Write(u8, Vec<u8>),
    WriteRead(u8, Vec<u8>, usize),
    Settle(u32),
}

struct Wire {
    regs: [u8; 256],
    seen: Vec<Seen>,
    transfers: usize,
    fail_at: Option<usize>,
    fail_code: i32,
}

#[derive(Clone)]
struct Chip(Rc<RefCell<Wire>>);

impl Chip {
    fn new() -> Chip {
        Chip(Rc::new(RefCell::new(Wire {
            regs: [0; 256],
            seen: Vec::new(),
            transfers: 0,
            fail_at: None,
            fail_code: -7,
        })))
    }

    fn failing_at(n: usize) -> Chip {
        let chip = Chip::new();
        chip.0.borrow_mut().fail_at = Some(n);
        chip
    }

    fn set(&self, register: u8, value: u8) {
        self.0.borrow_mut().regs[register as usize] = value;
    }

    fn get(&self, register: u8) -> u8 {
        self.0.borrow().regs[register as usize]
    }

    fn seen(&self) -> Vec<Seen> {
        self.0.borrow().seen.clone()
    }

    fn forget(&self) {
        let mut wire = self.0.borrow_mut();
        wire.seen.clear();
        wire.transfers = 0;
    }

    fn fail_next_at(&self, n: usize) {
        let mut wire = self.0.borrow_mut();
        wire.fail_at = Some(n);
        wire.transfers = 0;
        wire.seen.clear();
    }
}

impl Transport for Chip {
    fn write(&mut self, address: u8, bytes: &[u8]) -> Result<(), TransportError> {
        let mut wire = self.0.borrow_mut();
        wire.seen.push(Seen::Write(address, bytes.to_vec()));
        let n = wire.transfers;
        wire.transfers += 1;
        if wire.fail_at == Some(n) {
            return Err(TransportError { code: wire.fail_code });
        }
        if bytes.len() == 2 {
            wire.regs[bytes[0] as usize] = bytes[1];
        }
        Ok(())
    }

    fn write_read(&mut self, address: u8, out: &[u8], count: usize) -> Result<Vec<u8>, TransportError> {
        let mut wire = self.0.borrow_mut();
        wire.seen.push(Seen::WriteRead(address, out.to_vec(), count));
        let n = wire.transfers;
        wire.transfers += 1;
        if wire.fail_at == Some(n) {
            return Err(TransportError { code: wire.fail_code });
        }
        let start = out[0] as usize;
        Ok((0..count).map(|i| wire.regs[(start + i) % 256]).collect())
    }

    fn settle(&mut self, ms: u32) {
        self.0.borrow_mut().seen.push(Seen::Settle(ms));
    }
}

fn w(register: u8, value: u8) -> Seen {
    Seen::Write(AXP192_ADDRESS, vec![register, value])
}

fn r(register: u8, count: usize) -> Seen {
    Seen::WriteRead(AXP192_ADDRESS, vec![register], count)
}

fn bus_of(chip: &Chip) -> BusHandle<Chip> {
    BusRegistry::new().acquire(1, chip.clone()).unwrap()
}

fn ready(chip: &Chip) -> (BusHandle<Chip>, Axp192) {
    let mut bus = bus_of(chip);
    let port = bus.derive_proxy();
    let axp = Axp192::new(&mut bus, port, Model::StickC, BeginConf::default()).unwrap();
    chip.forget();
    (bus, axp)
}

fn all_rails_off() -> BeginConf {
    BeginConf {
        disable_ldo2: true,
        disable_ldo3: true,
        disable_rtc: false,
        disable_dcdc1: true,
        disable_dcdc3: true,
        disable_ldo0: false,
    }
}

#[test]
fn default_configuration_disables_nothing() {
    let conf = BeginConf::default();
    assert!(!conf.disable_ldo2);
    assert!(!conf.disable_ldo3);
    assert!(!conf.disable_rtc);
    assert!(!conf.disable_dcdc1);
    assert!(!conf.disable_dcdc3);
    assert!(!conf.disable_ldo0);
}

#[test]
fn setup_sends_the_whole_sequence_in_order() {
    let chip = Chip::new();
    chip.set(0x12, 0x10);
    chip.set(0x31, 0xFB);
    let mut bus = bus_of(&chip);
    let port = bus.derive_proxy();
    assert!(Axp192::new(&mut bus, port, Model::StickC, BeginConf::default()).is_ok());
    assert_eq!(
        chip.seen(),
        vec![
            w(0x28, 0xCC),
            w(0x82, 0xFF),
            w(0x33, 0xC0),
            r(0x12, 1),
            w(0x12, 0x1D),
            w(0x36, 0x0C),
            w(0x91, 0xA0),
            w(0x90, 0x02),
            w(0x30, 0x80),
            w(0x39, 0xFC),
            w(0x35, 0xA2),
            w(0x32, 0x46),
            r(0x31, 1),
            w(0x31, 0xFC),
        ]
    );
}

#[test]
fn setup_of_the_plus_board_differs_in_two_places() {
    let chip = Chip::new();
    let mut bus = bus_of(&chip);
    let port = bus.derive_proxy();
    assert!(Axp192::new(&mut bus, port, Model::StickCPlus, BeginConf::default()).is_ok());
    assert_eq!(
        chip.seen(),
        vec![
            w(0x28, 0xCC),
            w(0x82, 0xFF),
            w(0x33, 0xC0),
            r(0x12, 1),
            w(0x12, 0x0D),
            w(0x36, 0x0C),
            w(0x91, 0xF0),
            w(0x90, 0x02),
            w(0x30, 0x80),
            w(0x39, 0xFC),
            w(0x35, 0xA2),
            w(0x32, 0x46),
        ]
    );
}

#[test]
fn setup_honours_ldo0_and_rtc_flags() {
    let chip = Chip::new();
    let mut bus = bus_of(&chip);
    let port = bus.derive_proxy();
    let conf = BeginConf { disable_ldo0: true, disable_rtc: true, ..BeginConf::default() };
    assert!(Axp192::new(&mut bus, port, Model::StickC, conf).is_ok());
    let seen = chip.seen();
    assert_eq!(seen[5], w(0x36, 0x0C));
    assert_eq!(seen[6], w(0x90, 0x07));
    assert_eq!(seen[7], w(0x30, 0x80));
    assert_eq!(seen[9], w(0x35, 0x22));
    assert_eq!(seen.len(), 13);
    assert!(!seen.contains(&w(0x91, 0xA0)));
}

#[test]
fn setup_stops_at_the_first_failure() {
    let chip = Chip::failing_at(4);
    let mut bus = bus_of(&chip);
    let port = bus.derive_proxy();
    let result = Axp192::new(&mut bus, port, Model::StickC, BeginConf::default());
    assert_eq!(result.err(), Some(Error::Transport(TransportError { code: -7 })));
    assert_eq!(chip.seen(), vec![w(0x28, 0xCC), w(0x82, 0xFF), w(0x33, 0xC0), r(0x12, 1), w(0x12, 0x0D)]);
}

#[test]
fn setup_stops_when_a_read_fails() {
    let chip = Chip::failing_at(3);
    let mut bus = bus_of(&chip);
    let port = bus.derive_proxy();
    let result = Axp192::new(&mut bus, port, Model::StickC, BeginConf::default());
    assert_eq!(result.err(), Some(Error::Transport(TransportError { code: -7 })));
    assert_eq!(chip.seen().len(), 4);
    assert_eq!(chip.seen()[3], r(0x12, 1));
}

#[test]
fn all_disable_clears_only_the_four_rail_bits() {
    assert_eq!(rail_enable(0xFF, &all_rails_off()), 0xF0);
    assert_eq!(rail_enable(0x00, &all_rails_off()), 0x00);
    assert_eq!(rail_enable(0xA5, &all_rails_off()), 0xA0);
    let chip = Chip::new();
    chip.set(0x12, 0xFF);
    let mut bus = bus_of(&chip);
    let port = bus.derive_proxy();
    assert!(Axp192::new(&mut bus, port, Model::StickC, all_rails_off()).is_ok());
    assert_eq!(chip.seen()[4], w(0x12, 0xF0));
    assert_eq!(chip.get(0x12), 0xF0);
}

#[test]
fn rail_enable_keeps_the_upper_bits_for_every_flag_set() {
    for bits in 0u8..16 {
        let conf = BeginConf {
            disable_ldo2: bits & 1 != 0,
            disable_ldo3: bits & 2 != 0,
            disable_rtc: false,
            disable_dcdc1: bits & 4 != 0,
            disable_dcdc3: bits & 8 != 0,
            disable_ldo0: false,
        };
        for current in [0x00u8, 0x0F, 0x50, 0xA2, 0xFF] {
            assert_eq!(rail_enable(current, &conf) & 0xF0, current & 0xF0);
        }
    }
}

#[test]
fn rail_enable_switches_each_rail_by_its_flag() {
    let none = BeginConf::default();
    assert_eq!(rail_enable(0x00, &none), 0x0D);
    assert_eq!(rail_enable(0x02, &none), 0x0F);
    assert_eq!(rail_enable(0x0F, &BeginConf { disable_ldo3: true, ..none }), 0x07);
    assert_eq!(rail_enable(0x0F, &BeginConf { disable_ldo2: true, ..none }), 0x0B);
    assert_eq!(rail_enable(0x0F, &BeginConf { disable_dcdc3: true, ..none }), 0x0D);
    assert_eq!(rail_enable(0x0F, &BeginConf { disable_dcdc1: true, ..none }), 0x0E);
}

#[test]
fn brightness_out_of_range_is_refused_without_traffic() {
    let chip = Chip::new();
    let (mut bus, axp) = ready(&chip);
    for level in [-1i16, 101, 255, i16::MIN, i16::MAX] {
        assert_eq!(axp.screen_breath(&mut bus, level), Err(Error::Validation));
    }
    assert_eq!(chip.seen(), vec![]);
}

#[test]
fn brightness_goes_into_the_low_nibble() {
    let chip = Chip::new();
    let (mut bus, axp) = ready(&chip);
    chip.set(0x28, 0xC3);
    assert_eq!(axp.screen_breath(&mut bus, 0), Ok(()));
    assert_eq!(chip.seen(), vec![r(0x28, 1), w(0x28, 0xC7)]);
    chip.forget();
    assert_eq!(axp.screen_breath(&mut bus, 100), Ok(()));
    assert_eq!(chip.seen(), vec![r(0x28, 1), w(0x28, 0xCE)]);
    chip.forget();
    assert_eq!(axp.screen_breath(&mut bus, 50), Ok(()));
    assert_eq!(chip.seen(), vec![r(0x28, 1), w(0x28, 0xCA)]);
}

#[test]
fn brightness_stops_when_the_read_fails() {
    let chip = Chip::new();
    let (mut bus, axp) = ready(&chip);
    chip.fail_next_at(0);
    assert_eq!(
        axp.screen_breath(&mut bus, 50),
        Err(Error::Transport(TransportError { code: -7 }))
    );
    assert_eq!(chip.seen(), vec![r(0x28, 1)]);
}

#[test]
fn sleep_sequence() {
    let chip = Chip::new();
    let (mut bus, axp) = ready(&chip);
    chip.set(0x31, 0x04);
    chip.set(0x90, 0x02);
    chip.set(0x12, 0xFF);
    assert_eq!(axp.set_sleep(&mut bus), Ok(()));
    assert_eq!(
        chip.seen(),
        vec![
            r(0x31, 1),
            w(0x31, 0x0C),
            r(0x90, 1),
            w(0x90, 0x07),
            w(0x82, 0x00),
            r(0x12, 1),
            w(0x12, 0xA1),
        ]
    );
}

#[test]
fn sleep_aborts_the_remaining_steps_on_failure() {
    for n in 0..7 {
        let chip = Chip::new();
        let (mut bus, axp) = ready(&chip);
        chip.fail_next_at(n);
        assert_eq!(axp.set_sleep(&mut bus), Err(Error::Transport(TransportError { code: -7 })));
        assert_eq!(chip.seen().len(), n + 1);
    }
}

#[test]
fn power_key_latch_is_cleared_when_set() {
    let chip = Chip::new();
    let (mut bus, axp) = ready(&chip);
    chip.set(0x46, 0x02);
    assert_eq!(axp.get_btn_press(&mut bus), Ok(2));
    assert_eq!(chip.seen(), vec![r(0x46, 1), w(0x46, 0x03)]);
}

#[test]
fn power_key_latch_is_left_alone_when_clear() {
    let chip = Chip::new();
    let (mut bus, axp) = ready(&chip);
    assert_eq!(axp.get_btn_press(&mut bus), Ok(0));
    assert_eq!(chip.seen(), vec![r(0x46, 1)]);
}

#[test]
fn power_key_reports_the_press_even_if_clearing_fails() {
    let chip = Chip::new();
    let (mut bus, axp) = ready(&chip);
    chip.set(0x46, 0x01);
    chip.fail_next_at(1);
    assert_eq!(axp.get_btn_press(&mut bus), Ok(1));
    assert_eq!(chip.seen(), vec![r(0x46, 1), w(0x46, 0x03)]);
}

#[test]
fn power_key_read_failure_is_reported() {
    let chip = Chip::new();
    let (mut bus, axp) = ready(&chip);
    chip.fail_next_at(0);
    assert_eq!(axp.get_btn_press(&mut bus), Err(Error::Transport(TransportError { code: -7 })));
    assert_eq!(chip.seen().len(), 1);
}

#[test]
fn battery_voltage_reads_two_bytes_at_0x78() {
    let chip = Chip::new();
    let (mut bus, axp) = ready(&chip);
    chip.set(0x78, 0x0A);
    chip.set(0x79, 0x05);
    assert_eq!(axp.get_bat_voltage(&mut bus), Ok(165 * 1100));
    assert_eq!(chip.seen(), vec![r(0x78, 2)]);
    let volts = 165u16 as f32 * (1.1 / 1000.0);
    assert!((axp.get_bat_voltage(&mut bus).unwrap() as f32 / 1_000_000.0 - volts).abs() < 1e-6);
}

#[test]
fn battery_current_reads_in_then_out() {
    let chip = Chip::new();
    let (mut bus, axp) = ready(&chip);
    chip.set(0x7A, 3);
    chip.set(0x7B, 4);
    chip.set(0x7C, 1);
    chip.set(0x7D, 8);
    assert_eq!(axp.get_bat_current(&mut bus), Ok((100 - 40) * 500));
    assert_eq!(chip.seen(), vec![r(0x7A, 2), r(0x7C, 2)]);
    chip.forget();
    chip.set(0x7A, 0);
    chip.set(0x7B, 0);
    assert_eq!(axp.get_bat_current(&mut bus), Ok(-20_000));
}

#[test]
fn battery_current_stops_after_a_failed_first_read() {
    let chip = Chip::new();
    let (mut bus, axp) = ready(&chip);
    chip.fail_next_at(0);
    assert_eq!(axp.get_bat_current(&mut bus), Err(Error::Transport(TransportError { code: -7 })));
    assert_eq!(chip.seen(), vec![r(0x7A, 2)]);
    chip.fail_next_at(1);
    assert_eq!(axp.get_bat_current(&mut bus), Err(Error::Transport(TransportError { code: -7 })));
    assert_eq!(chip.seen(), vec![r(0x7A, 2), r(0x7C, 2)]);
}

#[test]
fn supply_and_temperature_registers() {
    let chip = Chip::new();
    let (mut bus, axp) = ready(&chip);
    chip.set(0x5A, 0x0A);
    chip.set(0x5B, 0x05);
    chip.set(0x5C, 0x01);
    chip.set(0x5D, 0x00);
    chip.set(0x5E, 0x6A);
    chip.set(0x5F, 0x04);
    assert_eq!(axp.get_vbus_voltage(&mut bus), Ok(165 * 1700));
    assert_eq!(axp.get_vbus_current(&mut bus), Ok(16 * 375));
    assert_eq!(axp.get_temp_in_axp192(&mut bus), Ok(1700 * 100 - 144_700));
    assert_eq!(chip.seen(), vec![r(0x5A, 2), r(0x5C, 2), r(0x5E, 2)]);
}

#[test]
fn register_helpers() {
    let chip = Chip::new();
    let (mut bus, axp) = ready(&chip);
    assert_eq!(axp.write(&mut bus, 0x10, 0x55), Ok(()));
    assert_eq!(chip.get(0x10), 0x55);
    assert_eq!(axp.read8bit(&mut bus, 0x10), Ok(0x55));
    chip.set(0x11, 0x02);
    assert_eq!(axp.read12bit(&mut bus, 0x10), Ok(0x55 * 16 + 2));
    assert_eq!(axp.read13bit(&mut bus, 0x10), Ok(0x55 * 32 + 2));
    assert_eq!(chip.seen(), vec![w(0x10, 0x55), r(0x10, 1), r(0x10, 2), r(0x10, 2)]);
}

#[test]
fn foreign_proxy_is_refused_without_traffic() {
    let chip = Chip::new();
    let (_, axp) = ready(&chip);
    let other = Chip::new();
    let mut other_bus = BusRegistry::new().acquire(2, other.clone()).unwrap();
    assert_eq!(axp.set_sleep(&mut other_bus), Err(Error::Resource));
    assert_eq!(axp.screen_breath(&mut other_bus, 10), Err(Error::Resource));
    assert_eq!(axp.get_btn_press(&mut other_bus), Err(Error::Resource));
    assert_eq!(axp.get_bat_voltage(&mut other_bus), Err(Error::Resource));
    assert_eq!(axp.get_bat_current(&mut other_bus), Err(Error::Resource));
    assert_eq!(other.seen(), vec![]);
    let stray = other_bus.derive_proxy();
    let mut bus = bus_of(&chip);
    assert!(Axp192::new(&mut bus, stray, Model::StickC, BeginConf::default()).is_err());
    assert_eq!(chip.seen(), vec![]);
}

#[test]
fn rail_masks_for_the_extreme_configurations() {
    assert_eq!(rail_masks(&BeginConf::default()), (0xF2, 0x0D));
    assert_eq!(rail_masks(&all_rails_off()), (0xF0, 0x00));
    let only_dcdc3_off = BeginConf { disable_dcdc3: true, ..BeginConf::default() };
    assert_eq!(rail_masks(&only_dcdc3_off), (0xF0, 0x0D));
}

#[test]
fn setup_script_as_a_value() {
    let script = init_steps(Model::StickC, &BeginConf::default());
    assert_eq!(script.len(), 12);
    assert_eq!(script[0], Step::Write { register: 0x28, value: 0xCC });
    assert_eq!(script[3], Step::Modify { register: 0x12, keep: 0xF2, set: 0x0D });
    assert_eq!(script[5], Step::Write { register: 0x91, value: 0xA0 });
    assert_eq!(script[11], Step::Modify { register: 0x31, keep: 0xF8, set: 0x04 });
    let plus = init_steps(Model::StickCPlus, &all_rails_off());
    assert_eq!(plus.len(), 11);
    assert_eq!(plus[3], Step::Modify { register: 0x12, keep: 0xF0, set: 0x00 });
    assert_eq!(plus[5], Step::Write { register: 0x91, value: 0xF0 });
    assert_eq!(plus[10], Step::Write { register: 0x32, value: 0x46 });
}

#[test]
fn sleep_script_as_a_value() {
    assert_eq!(
        sleep_steps(),
        vec![
            Step::Modify { register: 0x31, keep: 0xFF, set: 0x08 },
            Step::Modify { register: 0x90, keep: 0xFF, set: 0x07 },
            Step::Write { register: 0x82, value: 0x00 },
            Step::Modify { register: 0x12, keep: 0xA1, set: 0x00 },
        ]
    );
}

#[test]
fn brightness_script_as_a_value() {
    assert_eq!(brightness_steps(0), Ok(vec![Step::Modify { register: 0x28, keep: 0xF0, set: 7 }]));
    assert_eq!(brightness_steps(100), Ok(vec![Step::Modify { register: 0x28, keep: 0xF0, set: 14 }]));
    assert_eq!(brightness_steps(15), Ok(vec![Step::Modify { register: 0x28, keep: 0xF0, set: 8 }]));
    assert_eq!(brightness_steps(14), Ok(vec![Step::Modify { register: 0x28, keep: 0xF0, set: 7 }]));
    assert_eq!(brightness_steps(-1), Err(Error::Validation));
    assert_eq!(brightness_steps(101), Err(Error::Validation));
}
