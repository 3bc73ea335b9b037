use embedded_hal::digital::PinState;
use wasm_embedded_spec::{Error, Gpio, I2c};

/// A driver whose answers depend on its history, so that a lost or doubled
/// call would show.
#[derive(Clone, Debug, PartialEq)]
struct Counter {
    calls: u32,
    last: Vec<u8>,
    level: PinState,
}

impl Counter {
    fn new() -> Counter {
        Counter { calls: 0, last: vec![], level: PinState::Low }
    }
}

impl I2c for Counter {
    fn init(&mut self, dev: u32, _baud: u32, _sda: i32, _sck: i32) -> Result<i32, Error> {
        self.calls += 1;
        if dev > 1 {
            Err(Error::NoDevice)
        } else {
            Ok(self.calls as i32)
        }
    }

    fn deinit(&mut self, _handle: i32) -> Result<(), Error> {
        self.calls += 1;
        Ok(())
    }

    fn write(&mut self, _handle: i32, _addr: u16, data: &[u8]) -> Result<(), Error> {
        self.calls += 1;
        self.last = data.to_vec();
        Ok(())
    }

    fn read(&mut self, _handle: i32, _addr: u16, buff: &mut [u8]) -> Result<(), Error> {
        self.calls += 1;
        for (i, b) in buff.iter_mut().enumerate() {
            *b = self.last.get(i).copied().unwrap_or(0) ^ self.calls as u8;
        }
        Ok(())
    }

    fn write_read(&mut self, h: i32, addr: u16, data: &[u8], buff: &mut [u8]) -> Result<(), Error> {
        self.write(h, addr, data)?;
        self.read(h, addr, buff)
    }
}

impl Gpio for Counter {
    fn init(&mut self, port: i32, _pin: i32, _output: bool) -> Result<i32, Error> {
        self.calls += 1;
        if port < 0 {
            Err(Error::InvalidArg)
        } else {
            Ok(port)
        }
    }

    fn deinit(&mut self, _handle: i32) -> Result<(), Error> {
        self.calls += 1;
        Ok(())
    }

    fn set(&mut self, _handle: i32, state: PinState) -> Result<(), Error> {
        self.calls += 1;
        self.level = state;
        Ok(())
    }

    fn get(&mut self, _handle: i32) -> Result<PinState, Error> {
        self.calls += 1;
        Ok(self.level)
    }
}

fn i2c_session<D: I2c>(d: &mut D) -> Vec<Result<i32, Error>> {
    let mut out = vec![];
    out.push(d.init(0, 100_000, 4, 5));
    out.push(d.init(7, 100_000, 4, 5));
    out.push(d.write(1, 0x50, &[1, 2, 3]).map(|_| 0));
    let mut buf = [0u8; 3];
    out.push(d.read(1, 0x50, &mut buf).map(|_| 0));
    out.extend(buf.iter().map(|b| Ok(*b as i32)));
    out.push(d.write_read(1, 0x50, &[9], &mut buf).map(|_| 0));
    out.extend(buf.iter().map(|b| Ok(*b as i32)));
    out.push(d.deinit(1).map(|_| 0));
    out
}

fn gpio_session<D: Gpio>(d: &mut D) -> Vec<Result<i32, Error>> {
    vec![
        d.init(2, 13, true),
        d.init(-1, 13, true),
        d.set(2, PinState::High).map(|_| 0),
        d.get(2).map(|p| (p == PinState::High) as i32),
        d.deinit(2).map(|_| 0),
    ]
}

#[test]
fn i2c_through_a_reference_matches_direct_calls() {
    let mut direct = Counter::new();
    let by_value = i2c_session(&mut direct);

    let mut inner = Counter::new();
    let mut wrapped = &mut inner;
    let by_ref = i2c_session(&mut wrapped);

    assert_eq!(by_value, by_ref);
    assert_eq!(direct, inner);
    assert_eq!(by_value[1], Err(Error::NoDevice));
}

#[test]
fn gpio_through_a_reference_or_a_box_matches_direct_calls() {
    let mut direct = Counter::new();
    let by_value = gpio_session(&mut direct);

    let mut inner = Counter::new();
    let mut wrapped = &mut inner;
    let by_ref = gpio_session(&mut wrapped);

    let mut boxed = Box::new(Counter::new());
    let by_box = gpio_session(&mut boxed);

    assert_eq!(by_value, by_ref);
    assert_eq!(by_value, by_box);
    assert_eq!(direct, inner);
    assert_eq!(direct, *boxed);
    assert_eq!(by_value[1], Err(Error::InvalidArg));
    assert_eq!(by_value[3], Ok(1));
}
