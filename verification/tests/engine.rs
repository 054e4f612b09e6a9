use identity_agent::drain::drain_loop;
use identity_agent::drain::drain_step;
use identity_agent::drain::new_drain;
use identity_agent::image::MapRole;
use identity_agent::links::LinkTable;
use identity_agent::shutdown::RaceEvent;
use identity_agent::shutdown::ShutdownFlags;

#[test]
fn scratch_pool_sizes() {
    // The network-event loop allocates one scratch area per online CPU;
    // the veth-event loop a fixed pool of ten, regardless of CPU count.
    let net = new_drain(MapRole::NetworkEvents, 3);
    assert_eq!(net.n_buffers, 3);
    assert_eq!(net.scratch.len(), 3);
    let veth = new_drain(MapRole::VethEvents, 3);
    assert_eq!(veth.scratch.len(), 10);
    let veth_many = new_drain(MapRole::VethEvents, 64);
    assert_eq!(veth_many.scratch.len(), 10);
}

#[test]
fn step_delivers_and_advances_round_robin() {
    let mut st = new_drain(MapRole::NetworkEvents, 2);
    let polled = vec![vec![1u8, 2, 3], vec![4u8, 5]];
    let delivered = drain_step(&mut st, false, &polled);
    assert_eq!(delivered, Some(2));
    assert_eq!(st.scratch[0], vec![1u8, 2, 3]);
    assert_eq!(st.scratch[1], vec![4u8, 5]);
    assert_eq!(st.next, 1);
    // The cursor wraps: visiting the last buffer moves back to the first.
    let empty: Vec<Vec<u8>> = Vec::new();
    let delivered = drain_step(&mut st, false, &empty);
    assert_eq!(delivered, Some(0));
    assert_eq!(st.next, 0);
    // Contents beyond the delivered count are untouched.
    assert_eq!(st.scratch[0], vec![1u8, 2, 3]);
}

#[test]
fn step_caps_delivery_at_scratch_pool() {
    let mut st = new_drain(MapRole::NetworkEvents, 1);
    let polled = vec![vec![1u8], vec![2u8], vec![3u8]];
    // One CPU means one scratch area: a poll with more records delivers
    // only as many as fit.
    assert_eq!(drain_step(&mut st, false, &polled), Some(1));
    assert_eq!(st.scratch[0], vec![1u8]);
}

#[test]
fn step_with_flag_set_stops_immediately() {
    let mut st = new_drain(MapRole::NetworkEvents, 2);
    let polled = vec![vec![1u8, 2, 3]];
    let before_next = st.next;
    assert_eq!(drain_step(&mut st, true, &polled), None);
    // No poll, no delivery, no state change — whatever the event volume.
    assert_eq!(st.next, before_next);
    assert!(st.scratch[0].is_empty());
}

#[test]
fn loop_stops_at_first_true_read() {
    let mut st = new_drain(MapRole::NetworkEvents, 2);
    let flag_reads = vec![false, false, true, false];
    let polls = vec![
        vec![vec![1u8]],
        vec![vec![2u8]],
        vec![vec![3u8]],
        vec![vec![4u8]],
    ];
    // The loop polls exactly twice: the read at step 2 yields true and
    // stops it within that one poll interval.
    assert_eq!(drain_loop(&mut st, &flag_reads, &polls), 2);
    // Two polls over two buffers: the round-robin cursor is back on the
    // first buffer.
    assert_eq!(st.next, 0);
}

#[test]
fn loop_with_no_true_read_drains_every_step() {
    let mut st = new_drain(MapRole::NetworkEvents, 3);
    let flag_reads = vec![false, false];
    let polls = vec![vec![vec![1u8]], vec![vec![2u8]]];
    assert_eq!(drain_loop(&mut st, &flag_reads, &polls), 2);
    assert_eq!(st.next, 2);
}

#[test]
fn loop_with_flag_up_front_never_polls() {
    let mut st = new_drain(MapRole::NetworkEvents, 2);
    let flag_reads = vec![true, false];
    let polls = vec![vec![vec![1u8]], vec![vec![2u8]]];
    assert_eq!(drain_loop(&mut st, &flag_reads, &polls), 0);
    assert!(st.scratch[0].is_empty());
}

#[test]
fn channel_independence() {
    // The two channels share no state: however slowly the veth loop is
    // driven, the network loop's deliveries are unchanged.
    let mut net_alone = new_drain(MapRole::NetworkEvents, 1);
    let record = vec![9u8, 9];
    let polled = vec![record.clone()];
    let alone_first = drain_step(&mut net_alone, false, &polled);
    let alone_second = drain_step(&mut net_alone, false, &polled);

    let mut net = new_drain(MapRole::NetworkEvents, 1);
    let mut veth = new_drain(MapRole::VethEvents, 1);
    let first = drain_step(&mut net, false, &polled);
    // The veth loop stalls: it is stepped once here and never again,
    // while the network loop keeps going.
    let veth_polled = vec![vec![7u8]];
    let _ = drain_step(&mut veth, false, &veth_polled);
    let second = drain_step(&mut net, false, &polled);

    assert_eq!(first, alone_first);
    assert_eq!(second, alone_second);
    assert_eq!(net.scratch[0], record);
    assert_eq!(net.next, net_alone.next);
}

#[test]
fn interrupt_sets_both_flags() {
    let mut flags = ShutdownFlags::new();
    assert!(!flags.net_stop);
    assert!(!flags.veth_stop);
    flags.resolve_race(RaceEvent::Interrupt);
    assert!(flags.net_stop);
    assert!(flags.veth_stop);
}

#[test]
fn loop_return_does_not_stop_sibling() {
    let mut flags = ShutdownFlags::new();
    flags.resolve_race(RaceEvent::LoopReturned(MapRole::VethEvents));
    // A loop returning on its own is only observed: neither flag is set.
    assert!(!flags.net_stop);
    assert!(!flags.veth_stop);
}

#[test]
fn flags_never_reset() {
    let mut flags = ShutdownFlags::new();
    flags.resolve_race(RaceEvent::Interrupt);
    flags.resolve_race(RaceEvent::LoopReturned(MapRole::NetworkEvents));
    flags.resolve_race(RaceEvent::Interrupt);
    assert!(flags.net_stop);
    assert!(flags.veth_stop);
}

#[test]
fn interrupt_then_both_drains_exit() {
    // An interrupt mid-run: both flags become true, both loops observe
    // them and exit, in-flight polls before the interrupt having been
    // delivered.
    let mut flags = ShutdownFlags::new();
    flags.resolve_race(RaceEvent::Interrupt);
    let mut net = new_drain(MapRole::NetworkEvents, 1);
    let mut veth = new_drain(MapRole::VethEvents, 1);
    let net_reads = vec![false, false, flags.net_stop];
    let veth_reads = vec![false, false, flags.veth_stop];
    let net_polls = vec![vec![vec![1u8]], vec![vec![2u8]], vec![vec![3u8]]];
    let veth_polls = vec![vec![vec![4u8]], vec![vec![5u8]], vec![vec![6u8]]];
    assert_eq!(drain_loop(&mut net, &net_reads, &net_polls), 2);
    assert_eq!(drain_loop(&mut veth, &veth_reads, &veth_polls), 2);
    assert_eq!(net.scratch[0], vec![2u8]);
    assert_eq!(veth.scratch[0], vec![5u8]);
}

#[test]
fn link_table_insert_get_remove() {
    let mut table = LinkTable::new();
    assert_eq!(table.len(), 0);
    table.insert(String::from("veth0"), 40);
    table.insert(String::from("veth1"), 41);
    assert_eq!(table.len(), 2);
    assert_eq!(table.get(&String::from("veth0")), Some(40));
    assert_eq!(table.get(&String::from("veth1")), Some(41));
    assert_eq!(table.get(&String::from("veth2")), None);
    // A deletion event removes the handle recorded for the interface.
    assert_eq!(table.remove(&String::from("veth0")), Some(40));
    assert_eq!(table.remove(&String::from("veth0")), None);
    assert_eq!(table.len(), 1);
    assert_eq!(table.get(&String::from("veth1")), Some(41));
}
