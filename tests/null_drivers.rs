use embedded_hal::digital::PinState;
use wasm_embedded_spec::{
    c_gpio_get, c_i2c_write, c_spi_transfer, c_uart_read, gpio_get, gpio_init, gpio_set,
    i2c_init, i2c_read, i2c_write_read, spi_transfer_inplace, uart_write, Errno, Error, Gpio,
    GuestBytes, I2c, Mode, NullGpio, NullI2c, NullSpi, NullUart, Registry, Spi, Uart, Value,
};

#[test]
fn null_gpio_is_unsupported() {
    let mut d = NullGpio;
    assert_eq!(d.init(0, 1, true), Err(Error::Unsupported));
    assert_eq!(d.deinit(0), Err(Error::Unsupported));
    assert_eq!(d.set(0, PinState::High), Err(Error::Unsupported));
    assert_eq!(d.get(0), Err(Error::Unsupported));
}

#[test]
fn null_i2c_is_unsupported() {
    let mut d = NullI2c;
    let mut buf = [7u8, 8];
    assert_eq!(d.init(0, 100_000, 4, 5), Err(Error::Unsupported));
    assert_eq!(d.deinit(0), Err(Error::Unsupported));
    assert_eq!(d.write(0, 0x50, &[1, 2]), Err(Error::Unsupported));
    assert_eq!(d.read(0, 0x50, &mut buf), Err(Error::Unsupported));
    assert_eq!(d.write_read(0, 0x50, &[1], &mut buf), Err(Error::Unsupported));
    assert_eq!(buf, [7, 8]);
}

#[test]
fn null_spi_is_unsupported() {
    let mut d = NullSpi;
    let mut buf = [3u8; 4];
    assert_eq!(d.init(1, 1_000_000, 10, 11, 12, 13), Err(Error::Unsupported));
    assert_eq!(d.deinit(0), Err(Error::Unsupported));
    assert_eq!(d.read(0, &mut buf), Err(Error::Unsupported));
    assert_eq!(d.write(0, &[1, 2, 3]), Err(Error::Unsupported));
    assert_eq!(d.transfer(0, &mut buf, &[9, 9]), Err(Error::Unsupported));
    assert_eq!(d.transfer_inplace(0, &mut buf), Err(Error::Unsupported));
    assert_eq!(buf, [3; 4]);
}

#[test]
fn null_uart_is_unsupported() {
    let mut d = NullUart;
    let mut buf = [0u8; 3];
    assert_eq!(d.init(0, 115_200, 1, 3), Err(Error::Unsupported));
    assert_eq!(d.deinit(0), Err(Error::Unsupported));
    assert_eq!(d.write(0, 0, b"hi"), Err(Error::Unsupported));
    assert_eq!(d.read(0, 0, &mut buf), Err(Error::Unsupported));
}

#[test]
fn null_drivers_report_unsupported_to_the_guest() {
    let mut mem = vec![0u8; 16];
    let (s, h) = gpio_init(&mut NullGpio, 0, 2, Mode::Output);
    assert_eq!((s, h), (Errno::Unsupported, -1));
    assert_eq!(gpio_set(&mut NullGpio, 0, Value::High), Errno::Unsupported);
    assert_eq!(gpio_get(&mut NullGpio, 0), (Errno::Unsupported, Value::Low));
    assert_eq!(i2c_init(&mut NullI2c, 0, 100_000, 4, 5), (Errno::Unsupported, -1));
    let r = i2c_read(&mut NullI2c, &mut mem, 0, 0x50, GuestBytes { ptr: 0, len: 4 });
    assert_eq!(r, Ok(Errno::Unsupported));
    let r = i2c_write_read(
        &mut NullI2c,
        &mut mem,
        0,
        0x50,
        GuestBytes { ptr: 0, len: 2 },
        GuestBytes { ptr: 4, len: 2 },
    );
    assert_eq!(r, Ok(Errno::Unsupported));
    let r = spi_transfer_inplace(&mut NullSpi, &mut mem, 0, GuestBytes { ptr: 8, len: 8 });
    assert_eq!(r, Ok(Errno::Unsupported));
    let r = uart_write(&mut NullUart, &mem, 0, 0, GuestBytes { ptr: 0, len: 16 });
    assert_eq!(r, Ok(Errno::Unsupported));
    assert_eq!(mem, vec![0u8; 16]);
}

#[test]
fn null_drivers_fail_through_the_registry() {
    let mut gpios = Registry::new();
    let g = gpios.register(NullGpio);
    assert_eq!(c_gpio_get(&mut gpios, g, 0), (-1, PinState::Low));

    let mut i2cs = Registry::new();
    let t = i2cs.register(NullI2c);
    assert_eq!(c_i2c_write(&mut i2cs, t, 0, 0x50, &[1]), -1);

    let mut spis = Registry::new();
    let t = spis.register(NullSpi);
    let mut buf = [0u8; 2];
    assert_eq!(c_spi_transfer(&mut spis, t, 0, &mut buf, &[1, 2]), -1);

    let mut uarts = Registry::new();
    let t = uarts.register(NullUart);
    assert_eq!(c_uart_read(&mut uarts, t, 0, 0, &mut buf), -1);
}
