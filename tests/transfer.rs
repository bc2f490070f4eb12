use dma::{fence, Dma1Channel1, Fence, Pinned, Serial1, USART1_RX, USART1_TX};

const RAM: usize = 0x2000_0000;

fn port() -> Serial1 {
    Serial1::new(Dma1Channel1::new(), USART1_TX, USART1_RX)
}

#[test]
fn read_sequence_fills_buffer() {
    let mut serial = port();
    for b in 1..=16u8 {
        serial.receive(b);
    }
    let mut t = serial.start_read(Pinned::new(vec![0u8; 16], RAM));
    assert!(!t.is_done());
    for _ in 0..15 {
        t.tick();
        assert!(!t.is_done());
    }
    t.tick();
    assert!(t.is_done());
    let (buffer, _serial) = t.wait();
    let expected: Vec<u8> = (1..=16u8).collect();
    assert_eq!(buffer.bytes(), &expected);
    assert_eq!(buffer.address(), RAM);
}

#[test]
fn write_round_trip_keeps_buffer() {
    let serial = port();
    let t = serial.start_write(Pinned::new(vec![0u8; 16], RAM));
    let (buffer, mut serial) = t.wait();
    assert_eq!(buffer.bytes(), &vec![0u8; 16]);
    assert_eq!(serial.sent(), &vec![0u8; 16]);

    for b in [7u8, 8, 9] {
        serial.receive(b);
    }
    let t = serial.start_read(Pinned::new(vec![0u8; 3], RAM + 16));
    let (buffer, serial) = t.wait();
    assert_eq!(buffer.into_inner(), vec![7u8, 8, 9]);
    assert_eq!(serial.sent(), &vec![0u8; 16]);
}

#[test]
fn wait_lets_the_engine_finish() {
    let serial = port();
    let t = serial.start_write(Pinned::new(vec![1u8, 2, 3], RAM));
    let (buffer, serial) = t.wait();
    assert_eq!(serial.sent(), &vec![1u8, 2, 3]);
    assert_eq!(buffer.bytes(), &vec![1u8, 2, 3]);
}

#[test]
fn write_sends_bytes_one_per_beat() {
    let serial = port();
    let mut t = serial.start_write(Pinned::new(vec![5u8, 6], RAM));
    t.tick();
    assert!(!t.is_done());
    t.tick();
    assert!(t.is_done());
    t.tick();
    let (_buffer, serial) = t.wait();
    assert_eq!(serial.sent(), &vec![5u8, 6]);
}

#[test]
fn cancel_stops_engine() {
    let mut serial = port();
    for b in 1..=16u8 {
        serial.receive(b);
    }
    let mut t = serial.start_read(Pinned::new(vec![0u8; 16], RAM));
    for _ in 0..4 {
        t.tick();
    }
    assert!(!t.is_done());
    let (buffer, mut serial) = t.cancel();
    assert_eq!(buffer.bytes(), &vec![1u8, 2, 3, 4, 0, 0, 0, 0, 0, 0, 0, 0, 0, 0, 0, 0]);
    assert!(!serial.channel().is_enabled());
    assert_eq!(serial.read(), Ok(5u8));
}

#[test]
fn dropping_a_running_transfer_stops_quietly() {
    let mut serial = port();
    serial.receive(1);
    let mut t = serial.start_read(Pinned::new(vec![0u8; 16], RAM));
    t.tick();
    assert!(!t.is_done());
    drop(t);
    let serial = port();
    let (buffer, serial) = serial.start_write(Pinned::new(vec![4u8], RAM)).wait();
    assert_eq!(serial.sent(), buffer.bytes());
}

#[test]
fn read_stalls_without_input() {
    let serial = port();
    let mut t = serial.start_read(Pinned::new(vec![0u8; 2], RAM));
    t.tick();
    t.tick();
    assert!(!t.is_done());
    let (buffer, _serial) = t.cancel();
    assert_eq!(buffer.bytes(), &vec![0u8, 0]);
}

#[test]
fn empty_buffer_is_done_at_once() {
    let serial = port();
    let mut t = serial.start_read(Pinned::new(Vec::new(), RAM));
    assert!(t.is_done());
    let (buffer, _serial) = t.wait();
    assert_eq!(buffer.len(), 0);
}

#[test]
fn serial_bytes_in_order() {
    let mut serial = port();
    serial.receive(0x41);
    serial.receive(0x42);
    assert_eq!(serial.read(), Ok(0x41u8));
    assert_eq!(serial.read(), Ok(0x42u8));
    assert_eq!(serial.write(0x43), Ok(()));
    assert_eq!(serial.sent(), &vec![0x43u8]);
}

#[test]
fn channel_registers() {
    let mut c = Dma1Channel1::new();
    assert!(!c.is_enabled());
    assert!(!c.in_progress());
    c.set_source_address(USART1_RX, false);
    c.set_destination_address(RAM, true);
    c.set_transfer_length(0);
    c.start();
    assert!(c.is_enabled());
    assert!(!c.in_progress());
    c.set_transfer_length(3);
    c.start();
    assert!(c.in_progress());
    c.stop();
    assert!(!c.is_enabled());
    assert!(!c.in_progress());
    c.start();
    c.teardown();
    assert!(!c.is_enabled());
}

#[test]
fn pinned_accessors() {
    let p = Pinned::new(vec![9u8, 8, 7], RAM + 4);
    assert_eq!(p.address(), RAM + 4);
    assert_eq!(p.len(), 3);
    assert_eq!(p.bytes(), &vec![9u8, 8, 7]);
    assert_eq!(p.into_inner(), vec![9u8, 8, 7]);
}

#[test]
fn barriers_are_callable() {
    fence(Fence::Release);
    fence(Fence::Acquire);
    let mut c = Dma1Channel1::new();
    c.barrier(Fence::Release);
    assert!(!c.in_progress());
}

struct Counter {
    seen: Vec<u8>,
}

impl dma::Log for Counter {
    type Error = ();

    fn log(&mut self, address: u8) -> Result<(), ()> {
        self.seen.push(address);
        Ok(())
    }
}

#[test]
fn log_sink_receives_addresses() {
    let mut sink = Counter { seen: Vec::new() };
    assert_eq!(dma::Log::log(&mut sink, 3), Ok(()));
    assert_eq!(dma::Log::log(&mut sink, 4), Ok(()));
    assert_eq!(sink.seen, vec![3u8, 4]);
}
