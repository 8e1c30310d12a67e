use libtracecmd::{Accumulator, Call, Delivery, Handler, Input, Record};

fn delivery(source: usize, ts: u64, cpu: i32) -> Delivery {
    Delivery { source, record: Record { raw: 0x1000 + ts as usize, ts, data: 0x2000 }, cpu }
}

/// Counts every record.
struct CountAll;

impl Handler for CountAll {
    type DataType = u64;

    fn step(_input: Input, _rec: Record, _cpu: i32, _data: u64) -> (u64, i32) {
        unreachable!()
    }

    fn callback(_input: &mut Input, _rec: &mut Record, _cpu: i32, data: &mut u64) -> i32 {
        *data += 1;
        0
    }
}

/// Leaves the accumulator alone and signals with the CPU number.
struct Idle;

impl Handler for Idle {
    type DataType = (u64, u32);

    fn step(_input: Input, _rec: Record, _cpu: i32, _data: (u64, u32)) -> ((u64, u32), i32) {
        unreachable!()
    }

    fn callback(_input: &mut Input, _rec: &mut Record, cpu: i32, _data: &mut (u64, u32)) -> i32 {
        cpu
    }
}

/// Remembers the last timestamp, and counts the records that came before
/// their predecessor in time.
struct Order;

impl Handler for Order {
    type DataType = (u64, u32);

    fn step(_input: Input, _rec: Record, _cpu: i32, _data: (u64, u32)) -> ((u64, u32), i32) {
        unreachable!()
    }

    fn callback(_input: &mut Input, rec: &mut Record, _cpu: i32, data: &mut (u64, u32)) -> i32 {
        if rec.ts() < data.0 {
            data.1 += 1;
        }
        data.0 = rec.ts();
        0
    }
}

/// Sums the addresses of the sessions that the records came from, and the
/// CPUs.
struct Sources;

impl Handler for Sources {
    type DataType = (u64, u64);

    fn step(_input: Input, _rec: Record, _cpu: i32, _data: (u64, u64)) -> ((u64, u64), i32) {
        unreachable!()
    }

    fn callback(input: &mut Input, _rec: &mut Record, cpu: i32, data: &mut (u64, u64)) -> i32 {
        data.0 = data.0 * 16 + input.raw() as u64;
        data.1 += cpu as u64;
        0
    }
}

/// Where a record's event is found: its address and its name.
fn stub_event(record: &Record) -> (usize, &'static [u8]) {
    match record.data {
        1 => (0xa001, b"foo_x"),
        2 => (0xa002, b"foo_y"),
        _ => (0xa003, b"bar_z"),
    }
}

/// Counts the events whose name begins with `foo_`, by the rest of the name:
/// `x`, `y`, and whatever else.
struct Prefix;

impl Handler for Prefix {
    type DataType = ((u32, u32), u32);

    fn step(
        _input: Input,
        _rec: Record,
        _cpu: i32,
        _data: ((u32, u32), u32),
    ) -> (((u32, u32), u32), i32) {
        unreachable!()
    }

    fn callback(
        input: &mut Input,
        rec: &mut Record,
        _cpu: i32,
        data: &mut ((u32, u32), u32),
    ) -> i32 {
        let (event, name) = stub_event(rec);
        let event = input.find_event(0x8000, event, name).unwrap();
        if !event.name.starts_with("foo_") {
            return 0;
        }
        match event.name.trim_start_matches("foo_") {
            "x" => (data.0).0 += 1,
            "y" => (data.0).1 += 1,
            _ => data.1 += 1,
        }
        0
    }
}

fn named(kind: usize, ts: u64) -> Delivery {
    Delivery { source: 0, record: Record { raw: 0x1000 + ts as usize, ts, data: kind }, cpu: 0 }
}

#[test]
fn every_delivered_record_is_counted_once() {
    let mut input = Input::new(0x10).unwrap();
    let run = vec![delivery(0, 1, 0), delivery(0, 2, 1), delivery(0, 3, 0)];
    assert_eq!(CountAll::process(&mut input, &run, 0), Ok(3));
    assert_eq!(input.raw(), 0x10);
}

#[test]
fn count_matches_number_of_records() {
    let mut input = Input::new(0x10).unwrap();
    let mut run = Vec::new();
    for k in 0..1000u64 {
        run.push(delivery(0, k, (k % 4) as i32));
        assert_eq!(CountAll::process(&mut input, &run, 0), Ok(k + 1));
    }
}

#[test]
fn no_records_gives_the_empty_accumulator() {
    let mut input = Input::new(0x10).unwrap();
    assert_eq!(CountAll::process(&mut input, &[], 0), Ok(0));
    assert_eq!(Order::process(&mut input, &[], 0), Ok((0, 0)));
    assert_eq!(Prefix::process(&mut input, &[], 0), Ok(((0, 0), 0)));
    let mut none: Vec<Input> = Vec::new();
    assert_eq!(CountAll::process_multi(&mut none, &[], 0), Ok(0));
}

#[test]
fn prefix_filter_counts_by_stripped_name() {
    let mut input = Input::new(0x10).unwrap();
    let run = vec![
        named(3, 1),
        named(1, 2),
        named(2, 3),
        named(3, 4),
        named(1, 5),
        named(3, 6),
        named(2, 7),
        named(3, 8),
        named(1, 9),
        named(3, 10),
    ];
    assert_eq!(Prefix::process(&mut input, &run, 0), Ok(((3, 2), 0)));
}

#[test]
fn nonzero_status_is_returned_and_nothing_else() {
    let mut input = Input::new(0x10).unwrap();
    let run = vec![delivery(0, 1, 0), delivery(0, 2, 1)];
    assert_eq!(CountAll::process(&mut input, &run, -1), Err(-1));
    assert_eq!(CountAll::process(&mut input, &run, 1), Err(1));
    assert_eq!(CountAll::process(&mut input, &[], i32::MIN), Err(i32::MIN));
    let mut inputs = vec![Input::new(0x10).unwrap()];
    assert_eq!(CountAll::process_multi(&mut inputs, &run, 22), Err(22));
    assert_eq!(CountAll::finish(&[5, 0, 0, 0, 0, 0, 0, 0], 9), Err(9));
    assert_eq!(CountAll::finish(&[], -3), Err(-3));
}

#[test]
fn finish_reads_the_bytes_once_more() {
    assert_eq!(CountAll::finish(&[5, 1, 0, 0, 0, 0, 0, 0], 0), Ok(261));
    assert_eq!(Order::finish(&[9, 0, 0, 0, 0, 0, 0, 0, 2, 0, 0, 0], 0), Ok((9, 2)));
}

#[test]
fn start_is_the_empty_accumulator_in_bytes() {
    assert_eq!(CountAll::start(), vec![0u8; 8]);
    assert_eq!(Order::start(), vec![0u8; 12]);
    assert_eq!(Prefix::start(), vec![0u8; 12]);
}

#[test]
fn trampoline_copies_in_and_out() {
    let rec = Record { raw: 0x1000, ts: 7, data: 0x2000 };
    let mut raw_data = vec![0xff, 0, 0, 0, 0, 0, 0, 0];
    assert_eq!(CountAll::c_callback(0x10, rec, 0, &mut raw_data), 0);
    assert_eq!(raw_data, vec![0, 1, 0, 0, 0, 0, 0, 0]);
    assert_eq!(CountAll::c_callback(0x10, rec, 3, &mut raw_data), 0);
    assert_eq!(raw_data, vec![1, 1, 0, 0, 0, 0, 0, 0]);
}

#[test]
fn trampoline_round_trip_keeps_the_bytes() {
    let rec = Record { raw: 0x1000, ts: 7, data: 0x2000 };
    let known: (u64, u32) = (0x0102_0304_0506_0708, 0xa1b2_c3d4);
    let mut raw_data = known.store();
    let before = raw_data.clone();
    assert_eq!(before, vec![8, 7, 6, 5, 4, 3, 2, 1, 0xd4, 0xc3, 0xb2, 0xa1]);
    assert_eq!(Idle::c_callback(0x10, rec, 0, &mut raw_data), 0);
    assert_eq!(raw_data, before);
    assert_eq!(<(u64, u32)>::load(&raw_data), known);
}

#[test]
fn trampoline_hands_the_signal_back() {
    let rec = Record { raw: 0x1000, ts: 7, data: 0x2000 };
    let mut raw_data = Idle::start();
    assert_eq!(Idle::c_callback(0x10, rec, 5, &mut raw_data), 5);
    assert_eq!(Idle::c_callback(0x10, rec, -2, &mut raw_data), -2);
    assert_eq!(Idle::c_callback(0x10, rec, i32::MAX, &mut raw_data), i32::MAX);
}

#[test]
fn stepwise_run_agrees_with_process() {
    let run = vec![delivery(0, 3, 0), delivery(0, 1, 1), delivery(0, 2, 0), delivery(0, 2, 2)];
    let mut raw_data = Order::start();
    for d in &run {
        assert_eq!(Order::c_callback(0x10, d.record, d.cpu, &mut raw_data), 0);
    }
    let mut input = Input::new(0x10).unwrap();
    assert_eq!(Order::finish(&raw_data, 0), Order::process(&mut input, &run, 0));
    assert_eq!(Order::finish(&raw_data, 0), Ok((2, 1)));
}

#[test]
fn merged_records_reach_the_callback_in_the_order_given() {
    let mut inputs = vec![Input::new(0x1).unwrap(), Input::new(0x2).unwrap()];
    let sorted = vec![
        delivery(0, 10, 0),
        delivery(1, 11, 0),
        delivery(1, 11, 1),
        delivery(0, 15, 1),
        delivery(1, 20, 0),
        delivery(0, 21, 0),
    ];
    assert_eq!(Order::process_multi(&mut inputs, &sorted, 0), Ok((21, 0)));
    let unsorted = vec![delivery(0, 10, 0), delivery(1, 9, 0), delivery(0, 15, 1), delivery(1, 11, 0)];
    assert_eq!(Order::process_multi(&mut inputs, &unsorted, 0), Ok((11, 2)));
}

#[test]
fn each_record_comes_with_its_own_session() {
    let mut inputs =
        vec![Input::new(0x1).unwrap(), Input::new(0x2).unwrap(), Input::new(0x3).unwrap()];
    let run = vec![delivery(2, 1, 1), delivery(0, 2, 2), delivery(1, 3, 4), delivery(2, 4, 8)];
    assert_eq!(Sources::process_multi(&mut inputs, &run, 0), Ok((0x3123, 15)));
    assert_eq!(inputs[0].raw(), 0x1);
    assert_eq!(inputs[2].raw(), 0x3);
    let mut input = Input::new(0x7).unwrap();
    assert_eq!(Sources::process(&mut input, &run, 0), Ok((0x7777, 15)));
}

#[test]
fn process_call_walks_the_session() {
    let input = Input::new(0x7f00).unwrap();
    assert!(matches!(CountAll::process_call(&input), Call::Iterate { session: 0x7f00 }));
}

#[test]
fn process_multi_call_lists_the_sessions() {
    let inputs = vec![Input::new(0x30).unwrap(), Input::new(0x10).unwrap(), Input::new(0x20).unwrap()];
    match CountAll::process_multi_call(&inputs) {
        Call::IterateMulti { sessions, count } => {
            assert_eq!(sessions, vec![0x30, 0x10, 0x20]);
            assert_eq!(count, 3);
        }
        _ => panic!("not a merged iteration"),
    }
    match CountAll::process_multi_call(&[]) {
        Call::IterateMulti { sessions, count } => {
            assert!(sessions.is_empty());
            assert_eq!(count, 0);
        }
        _ => panic!("not a merged iteration"),
    }
}

#[test]
fn counters_are_laid_out_lowest_byte_first() {
    assert_eq!(0x0403_0201u32.store(), vec![1, 2, 3, 4]);
    assert_eq!(0x0807_0605_0403_0201u64.store(), vec![1, 2, 3, 4, 5, 6, 7, 8]);
    assert_eq!(u32::load(&[0xff, 0xff, 0xff, 0xff]), u32::MAX);
    assert_eq!(u64::load(&[0, 0, 0, 0, 0, 0, 0, 0x80]), 1u64 << 63);
    assert_eq!(u32::width(), 4);
    assert_eq!(u64::width(), 8);
    assert_eq!(u32::empty(), 0);
    assert_eq!(u64::empty(), 0);
}

#[test]
fn pairs_are_laid_out_side_by_side() {
    let value: ((u32, u32), u64) = ((1, 0x0200), 3);
    assert_eq!(value.store(), vec![1, 0, 0, 0, 0, 2, 0, 0, 3, 0, 0, 0, 0, 0, 0, 0]);
    assert_eq!(<((u32, u32), u64)>::load(&value.store()), value);
    assert_eq!(<((u32, u32), u64)>::width(), 16);
    assert_eq!(<(u64, u32)>::empty(), (0, 0));
    assert_eq!(<(u32, u64)>::load(&[1, 0, 0, 0, 2, 0, 0, 0, 0, 0, 0, 0]), (1, 2));
}
