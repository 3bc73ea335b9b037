use wasm_embedded_spec::{
    check_disjoint, check_span, i2c_read, i2c_write, i2c_write_read, read_span, spi_read,
    spi_transfer, uart_read, write_span, Errno, Error, GuestBytes, I2c, MemoryFault, Spi, Uart,
};

/// Records every call; reads fill the buffer with a marker byte.
#[derive(Default)]
struct Probe {
    calls: u32,
    seen: Vec<u8>,
    fail_reads: bool,
}

impl Probe {
    fn fill(&mut self, buff: &mut [u8]) -> Result<(), Error> {
        self.calls += 1;
        for b in buff.iter_mut() {
            *b = 0xAA;
        }
        if self.fail_reads {
            Err(Error::Failed)
        } else {
            Ok(())
        }
    }
}

impl I2c for Probe {
    fn init(&mut self, _dev: u32, _baud: u32, _sda: i32, _sck: i32) -> Result<i32, Error> {
        self.calls += 1;
        Ok(0)
    }

    fn deinit(&mut self, _handle: i32) -> Result<(), Error> {
        self.calls += 1;
        Ok(())
    }

    fn write(&mut self, _handle: i32, _addr: u16, data: &[u8]) -> Result<(), Error> {
        self.calls += 1;
        self.seen = data.to_vec();
        Ok(())
    }

    fn read(&mut self, _handle: i32, _addr: u16, buff: &mut [u8]) -> Result<(), Error> {
        self.fill(buff)
    }

    fn write_read(&mut self, _h: i32, _addr: u16, data: &[u8], buff: &mut [u8]) -> Result<(), Error> {
        self.seen = data.to_vec();
        self.fill(buff)
    }
}

impl Spi for Probe {
    fn init(&mut self, _d: u32, _b: u32, _mo: i32, _mi: i32, _sck: i32, _cs: i32) -> Result<i32, Error> {
        Ok(0)
    }

    fn deinit(&mut self, _handle: i32) -> Result<(), Error> {
        Ok(())
    }

    fn read(&mut self, _handle: i32, data: &mut [u8]) -> Result<(), Error> {
        self.fill(data)
    }

    fn write(&mut self, _handle: i32, data: &[u8]) -> Result<(), Error> {
        self.calls += 1;
        self.seen = data.to_vec();
        Ok(())
    }

    fn transfer(&mut self, _handle: i32, read: &mut [u8], write: &[u8]) -> Result<(), Error> {
        self.seen = write.to_vec();
        self.fill(read)
    }

    fn transfer_inplace(&mut self, _handle: i32, data: &mut [u8]) -> Result<(), Error> {
        self.seen = data.to_vec();
        self.fill(data)
    }
}

impl Uart for Probe {
    fn init(&mut self, _dev: u32, _baud: u32, _tx: i32, _rx: i32) -> Result<i32, Error> {
        Ok(0)
    }

    fn deinit(&mut self, _handle: i32) -> Result<(), Error> {
        Ok(())
    }

    fn write(&mut self, _handle: i32, flags: u32, data: &[u8]) -> Result<(), Error> {
        self.calls += 1;
        self.seen = data.to_vec();
        self.seen.push(flags as u8);
        Ok(())
    }

    fn read(&mut self, _handle: i32, flags: u32, buff: &mut [u8]) -> Result<(), Error> {
        self.seen = vec![(flags >> 24) as u8];
        self.fill(buff)
    }
}

fn memory() -> Vec<u8> {
    (0u8..16).collect()
}

#[test]
fn span_checks() {
    assert_eq!(check_span(GuestBytes { ptr: 0, len: 16 }, 16), Ok(()));
    assert_eq!(check_span(GuestBytes { ptr: 16, len: 0 }, 16), Ok(()));
    assert_eq!(check_span(GuestBytes { ptr: 15, len: 2 }, 16), Err(MemoryFault::OutOfBounds));
    assert_eq!(check_span(GuestBytes { ptr: 17, len: 0 }, 16), Err(MemoryFault::OutOfBounds));
    assert_eq!(
        check_span(GuestBytes { ptr: u32::MAX, len: u32::MAX }, usize::MAX),
        Ok(())
    );
    assert_eq!(
        check_span(GuestBytes { ptr: u32::MAX, len: 2 }, 16),
        Err(MemoryFault::OutOfBounds)
    );
}

#[test]
fn overlap_checks() {
    let a = GuestBytes { ptr: 0, len: 4 };
    assert_eq!(check_disjoint(a, GuestBytes { ptr: 4, len: 4 }), Ok(()));
    assert_eq!(check_disjoint(a, GuestBytes { ptr: 3, len: 4 }), Err(MemoryFault::Overlap));
    assert_eq!(check_disjoint(GuestBytes { ptr: 2, len: 1 }, a), Err(MemoryFault::Overlap));
    assert_eq!(check_disjoint(a, GuestBytes { ptr: 2, len: 0 }), Ok(()));
}

#[test]
fn spans_copy_out_and_back() {
    let mut mem = memory();
    assert_eq!(read_span(&mem, GuestBytes { ptr: 3, len: 3 }), Ok(vec![3, 4, 5]));
    assert_eq!(read_span(&mem, GuestBytes { ptr: 14, len: 3 }), Err(MemoryFault::OutOfBounds));
    write_span(&mut mem, GuestBytes { ptr: 14, len: 2 }, &vec![9, 9]);
    assert_eq!(&mem[12..], &[12, 13, 9, 9]);
}

#[test]
fn out_of_bounds_write_never_reaches_the_driver() {
    let mut d = Probe::default();
    let mem = memory();
    let r = i2c_write(&mut d, &mem, 0, 0x50, GuestBytes { ptr: 10, len: 7 });
    assert_eq!(r, Err(MemoryFault::OutOfBounds));
    assert_eq!(d.calls, 0);
    let r = i2c_write(&mut d, &mem, 0, 0x50, GuestBytes { ptr: u32::MAX, len: 1 });
    assert_eq!(r, Err(MemoryFault::OutOfBounds));
    assert_eq!(d.calls, 0);
}

#[test]
fn out_of_bounds_read_leaves_memory_alone() {
    let mut d = Probe::default();
    let mut mem = memory();
    let r = i2c_read(&mut d, &mut mem, 0, 0x50, GuestBytes { ptr: 12, len: 5 });
    assert_eq!(r, Err(MemoryFault::OutOfBounds));
    assert_eq!(d.calls, 0);
    assert_eq!(mem, memory());
}

#[test]
fn write_sends_exactly_the_span() {
    let mut d = Probe::default();
    let mem = memory();
    let r = i2c_write(&mut d, &mem, 0, 0x50, GuestBytes { ptr: 5, len: 3 });
    assert_eq!(r, Ok(Errno::Success));
    assert_eq!(d.seen, vec![5, 6, 7]);
}

#[test]
fn read_fills_exactly_the_span() {
    let mut d = Probe::default();
    let mut mem = memory();
    let r = spi_read(&mut d, &mut mem, 0, GuestBytes { ptr: 2, len: 3 });
    assert_eq!(r, Ok(Errno::Success));
    let mut want = memory();
    want[2..5].copy_from_slice(&[0xAA; 3]);
    assert_eq!(mem, want);
}

#[test]
fn failed_read_writes_nothing_back() {
    let mut d = Probe { fail_reads: true, ..Probe::default() };
    let mut mem = memory();
    let r = spi_read(&mut d, &mut mem, 0, GuestBytes { ptr: 2, len: 3 });
    assert_eq!(r, Ok(Errno::Failed));
    assert_eq!(d.calls, 1);
    assert_eq!(mem, memory());
}

#[test]
fn zero_length_spans_are_accepted_and_move_nothing() {
    let mut d = Probe::default();
    let mut mem = memory();
    let r = i2c_read(&mut d, &mut mem, 0, 0x50, GuestBytes { ptr: 16, len: 0 });
    assert_eq!(r, Ok(Errno::Success));
    assert_eq!(d.calls, 1);
    assert_eq!(mem, memory());
    let r = i2c_write(&mut d, &mem, 0, 0x50, GuestBytes { ptr: 0, len: 0 });
    assert_eq!(r, Ok(Errno::Success));
    assert_eq!(d.seen, Vec::<u8>::new());
}

#[test]
fn overlapping_read_and_write_spans_are_refused() {
    let mut d = Probe::default();
    let mut mem = memory();
    let r = i2c_write_read(
        &mut d,
        &mut mem,
        0,
        0x50,
        GuestBytes { ptr: 0, len: 4 },
        GuestBytes { ptr: 2, len: 4 },
    );
    assert_eq!(r, Err(MemoryFault::Overlap));
    let r = spi_transfer(&mut d, &mut mem, 0, GuestBytes { ptr: 8, len: 2 }, GuestBytes { ptr: 9, len: 1 });
    assert_eq!(r, Err(MemoryFault::Overlap));
    assert_eq!(d.calls, 0);
    assert_eq!(mem, memory());
}

#[test]
fn bounds_are_checked_before_overlap() {
    let mut d = Probe::default();
    let mut mem = memory();
    let r = spi_transfer(&mut d, &mut mem, 0, GuestBytes { ptr: 8, len: 9 }, GuestBytes { ptr: 9, len: 1 });
    assert_eq!(r, Err(MemoryFault::OutOfBounds));
}

#[test]
fn transfer_moves_both_ways() {
    let mut d = Probe::default();
    let mut mem = memory();
    let r = spi_transfer(&mut d, &mut mem, 0, GuestBytes { ptr: 0, len: 2 }, GuestBytes { ptr: 4, len: 3 });
    assert_eq!(r, Ok(Errno::Success));
    assert_eq!(d.seen, vec![4, 5, 6]);
    assert_eq!(&mem[..4], &[0xAA, 0xAA, 2, 3]);
}

#[test]
fn uart_flags_keep_their_bits() {
    let mut d = Probe::default();
    let mut mem = memory();
    let r = uart_read(&mut d, &mut mem, 0, -1, GuestBytes { ptr: 0, len: 1 });
    assert_eq!(r, Ok(Errno::Success));
    assert_eq!(d.seen, vec![0xFF]);
}
