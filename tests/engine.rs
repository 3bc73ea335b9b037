use embedded_hal::digital::PinState;
use wasm_embedded_spec::{
    i2c_write, Engine, Errno, Error, Gpio, GuestBytes, I2c, NullGpio, NullI2c, NullSpi, NullUart,
};

#[derive(Default)]
struct Pin {
    level: Option<PinState>,
}

impl Gpio for Pin {
    fn init(&mut self, _port: i32, _pin: i32, _output: bool) -> Result<i32, Error> {
        Ok(1)
    }

    fn deinit(&mut self, _handle: i32) -> Result<(), Error> {
        Ok(())
    }

    fn set(&mut self, _handle: i32, state: PinState) -> Result<(), Error> {
        self.level = Some(state);
        Ok(())
    }

    fn get(&mut self, _handle: i32) -> Result<PinState, Error> {
        self.level.ok_or(Error::Unexpected)
    }
}

#[test]
fn empty_engine_has_no_drivers() {
    let mut e: Engine = Engine::new();
    assert!(e.gpio().is_none());
    assert!(e.i2c().is_none());
    assert!(e.spi().is_none());
    assert!(e.uart().is_none());
}

#[test]
fn wired_driver_is_reachable_and_keeps_its_state() {
    let mut e: Engine<Pin, NullI2c, NullSpi, NullUart> = Engine::new().with_gpio(Pin::default());
    assert!(e.i2c().is_none());
    let g = e.gpio().unwrap();
    assert_eq!(g.set(1, PinState::High), Ok(()));
    assert_eq!(e.gpio().unwrap().get(1), Ok(PinState::High));
}

#[test]
fn null_driver_wired_in_answers_unsupported() {
    let mut e: Engine<NullGpio, NullI2c> = Engine::new().with_i2c(NullI2c).with_gpio(NullGpio);
    let mem = vec![0u8; 4];
    let d = e.i2c().unwrap();
    assert_eq!(i2c_write(d, &mem, 0, 0x50, GuestBytes { ptr: 0, len: 4 }), Ok(Errno::Unsupported));
    assert_eq!(e.gpio().unwrap().get(0), Err(Error::Unsupported));
    assert!(e.spi().is_none());
}
