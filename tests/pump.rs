use port_forward::pump::{Ending, Pump, Stage, CHUNK_SIZE};

/// Drives a pump over `chunks` (the reads, an empty one at the end for
/// end-of-stream) into a sink that accepts at most `limit` bytes per write.
fn pump_through(chunks: &[&[u8]], limit: usize) -> (Vec<u8>, Ending) {
    let mut pump = Pump::new();
    let mut sink: Vec<u8> = Vec::new();
    let mut next = 0;
    loop {
        match pump.stage() {
            Stage::Reading => {
                let chunk: &[u8] = if next < chunks.len() { chunks[next] } else { &[] };
                next += 1;
                pump.on_read(chunk);
            }
            Stage::Writing => {
                let pending = pump.pending();
                let n = pending.len().min(limit);
                sink.extend_from_slice(&pending[..n]);
                pump.on_written(n);
            }
            Stage::Ended(e) => return (sink, e),
        }
    }
}

#[test]
fn fresh_pump_reads_first() {
    let pump = Pump::new();
    assert_eq!(pump.stage(), Stage::Reading);
    assert!(pump.pending().is_empty());
}

#[test]
fn chunk_is_written_whole_then_reading_resumes() {
    let mut pump = Pump::new();
    pump.on_read(b"hello");
    assert_eq!(pump.stage(), Stage::Writing);
    assert_eq!(pump.pending(), b"hello");
    pump.on_written(5);
    assert_eq!(pump.stage(), Stage::Reading);
    assert!(pump.pending().is_empty());
}

#[test]
fn short_writes_continue_with_the_rest() {
    let mut pump = Pump::new();
    pump.on_read(b"abcdef");
    pump.on_written(2);
    assert_eq!(pump.stage(), Stage::Writing);
    assert_eq!(pump.pending(), b"cdef");
    pump.on_written(3);
    assert_eq!(pump.pending(), b"f");
    pump.on_written(1);
    assert_eq!(pump.stage(), Stage::Reading);
}

#[test]
fn zero_length_read_is_end_of_stream() {
    let mut pump = Pump::new();
    pump.on_read(&[]);
    assert_eq!(pump.stage(), Stage::Ended(Ending::Eof));
}

#[test]
fn write_accepting_nothing_fails_the_direction() {
    let mut pump = Pump::new();
    pump.on_read(b"xyz");
    pump.on_written(0);
    assert_eq!(pump.stage(), Stage::Ended(Ending::Failed));
}

#[test]
fn read_error_fails_the_direction() {
    let mut pump = Pump::new();
    pump.fail();
    assert_eq!(pump.stage(), Stage::Ended(Ending::Failed));
}

#[test]
fn write_error_fails_the_direction() {
    let mut pump = Pump::new();
    pump.on_read(b"data");
    pump.fail();
    assert_eq!(pump.stage(), Stage::Ended(Ending::Failed));
}

#[test]
fn failure_after_end_of_stream_keeps_the_ending() {
    let mut pump = Pump::new();
    pump.on_read(&[]);
    pump.fail();
    assert_eq!(pump.stage(), Stage::Ended(Ending::Eof));
}

#[test]
fn bytes_arrive_unaltered_and_in_order() {
    let (out, end) = pump_through(&[b"GET / HTTP/1.1\r\n", b"\x00\xff\x10", b"tail"], 3);
    assert_eq!(end, Ending::Eof);
    assert_eq!(out, b"GET / HTTP/1.1\r\n\x00\xff\x10tail".to_vec());
}

#[test]
fn full_buffer_chunks_pass_through() {
    let big: Vec<u8> = (0..CHUNK_SIZE).map(|i| (i % 251) as u8).collect();
    let (out, end) = pump_through(&[&big, &big], CHUNK_SIZE);
    assert_eq!(end, Ending::Eof);
    assert_eq!(out.len(), 2 * CHUNK_SIZE);
    assert_eq!(&out[..CHUNK_SIZE], &big[..]);
    assert_eq!(&out[CHUNK_SIZE..], &big[..]);
}

#[test]
fn empty_stream_delivers_nothing() {
    let (out, end) = pump_through(&[], 10);
    assert_eq!(end, Ending::Eof);
    assert!(out.is_empty());
}

#[test]
fn chunk_size_is_one_kibibyte() {
    assert_eq!(CHUNK_SIZE, 1024);
}
