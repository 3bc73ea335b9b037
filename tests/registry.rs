use embedded_hal::digital::PinState;
use wasm_embedded_spec::{
    c_gpio_deinit, c_gpio_get, c_gpio_init, c_gpio_set, c_i2c_init, c_i2c_read, c_i2c_write,
    c_i2c_write_read, c_spi_init, c_spi_read, c_spi_transfer_inplace, c_spi_write, c_status,
    c_uart_init, c_uart_write, Error, Gpio, I2c, NullI2c, Registry, Spi, Uart,
};

#[derive(Default)]
struct Loop {
    last: Vec<u8>,
    level: Option<PinState>,
}

impl Gpio for Loop {
    fn init(&mut self, port: i32, pin: i32, _output: bool) -> Result<i32, Error> {
        if port < 0 { Err(Error::InvalidArg) } else { Ok(port * 32 + pin) }
    }

    fn deinit(&mut self, _handle: i32) -> Result<(), Error> {
        Ok(())
    }

    fn set(&mut self, _handle: i32, state: PinState) -> Result<(), Error> {
        self.level = Some(state);
        Ok(())
    }

    fn get(&mut self, _handle: i32) -> Result<PinState, Error> {
        self.level.ok_or(Error::Failed)
    }
}

impl I2c for Loop {
    fn init(&mut self, dev: u32, _baud: u32, _sda: i32, _sck: i32) -> Result<i32, Error> {
        Ok(dev as i32 + 10)
    }

    fn deinit(&mut self, _handle: i32) -> Result<(), Error> {
        Ok(())
    }

    fn write(&mut self, _handle: i32, _addr: u16, data: &[u8]) -> Result<(), Error> {
        self.last = data.to_vec();
        Ok(())
    }

    fn read(&mut self, _handle: i32, _addr: u16, buff: &mut [u8]) -> Result<(), Error> {
        if buff.len() > self.last.len() {
            return Err(Error::InvalidArg);
        }
        buff.copy_from_slice(&self.last[..buff.len()]);
        Ok(())
    }

    fn write_read(&mut self, h: i32, addr: u16, data: &[u8], buff: &mut [u8]) -> Result<(), Error> {
        I2c::write(self, h, addr, data)?;
        I2c::read(self, h, addr, buff)
    }
}

impl Spi for Loop {
    fn init(&mut self, dev: u32, _b: u32, _mo: i32, _mi: i32, _sck: i32, _cs: i32) -> Result<i32, Error> {
        Ok(dev as i32)
    }

    fn deinit(&mut self, _handle: i32) -> Result<(), Error> {
        Ok(())
    }

    fn read(&mut self, _handle: i32, data: &mut [u8]) -> Result<(), Error> {
        data.fill(0x5A);
        Ok(())
    }

    fn write(&mut self, _handle: i32, data: &[u8]) -> Result<(), Error> {
        self.last = data.to_vec();
        Ok(())
    }

    fn transfer(&mut self, _handle: i32, read: &mut [u8], write: &[u8]) -> Result<(), Error> {
        read.copy_from_slice(write);
        Ok(())
    }

    fn transfer_inplace(&mut self, _handle: i32, data: &mut [u8]) -> Result<(), Error> {
        data.reverse();
        Ok(())
    }
}

impl Uart for Loop {
    fn init(&mut self, _dev: u32, baud: u32, _tx: i32, _rx: i32) -> Result<i32, Error> {
        if baud == 0 { Err(Error::InvalidArg) } else { Ok(0) }
    }

    fn deinit(&mut self, _handle: i32) -> Result<(), Error> {
        Ok(())
    }

    fn write(&mut self, _handle: i32, _flags: u32, data: &[u8]) -> Result<(), Error> {
        self.last = data.to_vec();
        Ok(())
    }

    fn read(&mut self, _handle: i32, _flags: u32, _buff: &mut [u8]) -> Result<(), Error> {
        Err(Error::Unsupported)
    }
}

#[test]
fn tokens_are_handed_out_in_order() {
    let mut reg = Registry::new();
    assert_eq!(reg.register(NullI2c), 0);
    assert_eq!(reg.register(NullI2c), 1);
    assert_eq!(reg.len(), 2);
    assert!(reg.unregister(0).is_some());
    assert!(reg.unregister(0).is_none());
    assert!(reg.get_mut(0).is_none());
    assert!(reg.get_mut(1).is_some());
    assert!(reg.get_mut(2).is_none());
    assert_eq!(reg.register(NullI2c), 2);
}

#[test]
fn unknown_token_fails_without_touching_buffers() {
    let mut reg: Registry<Loop> = Registry::new();
    let mut buf = [4u8; 3];
    assert_eq!(c_i2c_init(&mut reg, 0, 1, 100_000, 4, 5), (-1, -1));
    assert_eq!(c_i2c_read(&mut reg, 0, 0, 0x50, &mut buf), -1);
    assert_eq!(buf, [4; 3]);
    assert_eq!(c_gpio_get(&mut reg, 3, 0), (-1, PinState::Low));
}

#[test]
fn i2c_calls_reach_the_registered_driver() {
    let mut reg = Registry::new();
    let a = reg.register(Loop::default());
    let b = reg.register(Loop::default());
    assert_eq!(c_i2c_init(&mut reg, b, 2, 400_000, 4, 5), (0, 12));
    assert_eq!(c_i2c_write(&mut reg, a, 12, 0x50, &[1, 2, 3]), 0);
    let mut buf = [0u8; 2];
    assert_eq!(c_i2c_read(&mut reg, a, 12, 0x50, &mut buf), 0);
    assert_eq!(buf, [1, 2]);
    let mut buf = [0u8; 2];
    assert_eq!(c_i2c_read(&mut reg, b, 12, 0x50, &mut buf), -1);
    let mut buf = [0u8; 1];
    assert_eq!(c_i2c_write_read(&mut reg, b, 12, 0x50, &[9, 8], &mut buf), 0);
    assert_eq!(buf, [9]);
}

#[test]
fn gpio_calls_carry_their_out_values() {
    let mut reg = Registry::new();
    let t = reg.register(Loop::default());
    assert_eq!(c_gpio_init(&mut reg, t, 1, 5, true), (0, 37));
    assert_eq!(c_gpio_init(&mut reg, t, -1, 5, true), (-1, -1));
    assert_eq!(c_gpio_get(&mut reg, t, 37), (-1, PinState::Low));
    assert_eq!(c_gpio_set(&mut reg, t, 37, PinState::High), 0);
    assert_eq!(c_gpio_get(&mut reg, t, 37), (0, PinState::High));
    assert_eq!(c_gpio_deinit(&mut reg, t, 37), 0);
}

#[test]
fn spi_and_uart_calls_reach_the_registered_driver() {
    let mut reg = Registry::new();
    let t = reg.register(Loop::default());
    assert_eq!(c_spi_init(&mut reg, t, 3, 1_000_000, 1, 2, 3, 4), (0, 3));
    let mut buf = [1u8, 2, 3];
    assert_eq!(c_spi_transfer_inplace(&mut reg, t, 3, &mut buf), 0);
    assert_eq!(buf, [3, 2, 1]);
    assert_eq!(c_spi_read(&mut reg, t, 3, &mut buf), 0);
    assert_eq!(buf, [0x5A; 3]);
    assert_eq!(c_spi_write(&mut reg, t, 3, &[7]), 0);
    assert_eq!(c_uart_init(&mut reg, t, 0, 0, 1, 2), (-1, -1));
    assert_eq!(c_uart_init(&mut reg, t, 0, 9600, 1, 2), (0, 0));
    assert_eq!(c_uart_write(&mut reg, t, 0, 0, b"ok"), 0);
    assert_eq!(reg.unregister(t).map(|d| d.last), Some(b"ok".to_vec()));
}

#[test]
fn foreign_status_drops_the_detail() {
    assert_eq!(c_status(&Ok::<(), Error>(())), 0);
    assert_eq!(c_status(&Err::<(), Error>(Error::NoDevice)), -1);
    assert_eq!(c_status(&Err::<i32, Error>(Error::Unsupported)), -1);
}
