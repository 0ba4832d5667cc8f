use std::sync::atomic::{AtomicU8, AtomicUsize, Ordering};

use airlock::error::Fault;
use airlock::mono::flags as mono;
use airlock::mpmc::bits as wide;
use airlock::mpmc::ring as claims;
use airlock::spsc::buffered::bits::{head, is_closed, max_len, rx_is_set, tail, tx_is_set};
use airlock::spsc::buffered::ring::{
    attach_rx, attach_tx, move_head, move_tail, plan_reclaim, plan_recv, plan_send, raise_closed,
    RecvPlan, SendPlan,
};
use airlock::utils::ring::{distance, step, step_back};
use airlock::utils::{
    compare_exchange_loop, AtomicUpdate, AtomicValue, ATOMIC_UPDATE_MAX_ITERATIONS,
};

fn word(head_at: usize, tail_at: usize) -> usize {
    tail::set(head::set(0, head_at), tail_at)
}

fn stored(asked: Result<AtomicUpdate<usize>, Fault>) -> usize {
    match asked {
        Ok(AtomicUpdate::Store(new)) => new,
        _ => panic!("no word to store"),
    }
}

#[test]
fn ring_steps_wrap_at_the_end() {
    assert_eq!(step(0, 4), 1);
    assert_eq!(step(2, 4), 3);
    assert_eq!(step(3, 4), 0);
    assert_eq!(step(0, 1), 0);
    assert_eq!(step_back(0, 4), 3);
    assert_eq!(step_back(3, 4), 2);
    assert_eq!(step_back(0, 1), 0);
    for index in 0..7 {
        assert_eq!(step_back(step(index, 7), 7), index);
    }
}

#[test]
fn ring_distance_counts_round_the_end() {
    assert_eq!(distance(0, 0, 4), 0);
    assert_eq!(distance(1, 3, 4), 2);
    assert_eq!(distance(3, 1, 4), 2);
    assert_eq!(distance(3, 2, 4), 3);
    assert_eq!(distance(5, 4, 6), 5);
}

#[test]
fn send_plan_writes_at_the_tail() {
    assert_eq!(plan_send(word(0, 0), 4), SendPlan::Write { slot: 0, next: 1 });
    assert_eq!(plan_send(word(1, 3), 4), SendPlan::Write { slot: 3, next: 0 });
    assert_eq!(plan_send(word(3, 1), 4), SendPlan::Write { slot: 1, next: 2 });
}

#[test]
fn send_plan_is_full_one_short_of_the_slots() {
    assert_eq!(plan_send(word(0, 3), 4), SendPlan::Full);
    assert_eq!(plan_send(word(1, 0), 4), SendPlan::Full);
    assert_eq!(plan_send(word(3, 2), 4), SendPlan::Full);
    assert_eq!(plan_send(word(0, 2), 4), SendPlan::Write { slot: 2, next: 3 });
    assert_eq!(plan_send(word(0, 0), 1), SendPlan::Full);
    assert_eq!(plan_send(word(0, 1), 2), SendPlan::Full);
}

#[test]
fn send_plan_closed_comes_first() {
    assert_eq!(plan_send(is_closed::set(word(0, 0)), 4), SendPlan::Closed);
    assert_eq!(plan_send(is_closed::set(word(0, 3)), 4), SendPlan::Closed);
    assert_eq!(plan_send(is_closed::set(word(9, 9)), 0), SendPlan::Closed);
}

#[test]
fn send_plan_faults_on_what_no_channel_produces() {
    assert_eq!(plan_send(word(0, 0), 0), SendPlan::Fault(Fault::BadCapacity));
    assert_eq!(plan_send(word(0, 0), max_len()), SendPlan::Fault(Fault::BadCapacity));
    assert_eq!(plan_send(word(0, 0), max_len() - 1), SendPlan::Write { slot: 0, next: 1 });
    assert_eq!(plan_send(word(4, 0), 4), SendPlan::Fault(Fault::Corrupted));
    assert_eq!(plan_send(word(0, 7), 4), SendPlan::Fault(Fault::Corrupted));
}

#[test]
fn recv_plan_takes_at_the_head() {
    assert_eq!(plan_recv(word(0, 1), 4), RecvPlan::Take { slot: 0, next: 1 });
    assert_eq!(plan_recv(word(3, 1), 4), RecvPlan::Take { slot: 3, next: 0 });
    assert_eq!(plan_recv(is_closed::set(word(3, 1)), 4), RecvPlan::Take { slot: 3, next: 0 });
}

#[test]
fn recv_plan_closed_counts_only_when_empty() {
    assert_eq!(plan_recv(word(2, 2), 4), RecvPlan::Empty);
    assert_eq!(plan_recv(is_closed::set(word(2, 2)), 4), RecvPlan::Closed);
    assert_eq!(plan_recv(word(0, 0), 0), RecvPlan::Empty);
}

#[test]
fn recv_plan_faults_on_what_no_channel_produces() {
    assert_eq!(plan_recv(word(0, 1), 0), RecvPlan::Fault(Fault::BadCapacity));
    assert_eq!(plan_recv(word(0, 1), max_len()), RecvPlan::Fault(Fault::BadCapacity));
    assert_eq!(plan_recv(word(5, 1), 4), RecvPlan::Fault(Fault::Corrupted));
    assert_eq!(plan_recv(word(1, 5), 4), RecvPlan::Fault(Fault::Corrupted));
}

#[test]
fn reclaim_plan_counts_what_is_buffered() {
    assert_eq!(plan_reclaim(word(0, 0), 4), Ok((0, 0)));
    assert_eq!(plan_reclaim(word(1, 3), 4), Ok((1, 2)));
    assert_eq!(plan_reclaim(word(3, 2), 4), Ok((3, 3)));
    assert_eq!(plan_reclaim(is_closed::set(tx_is_set::set(word(3, 2))), 4), Ok((3, 3)));
    assert_eq!(plan_reclaim(tx_is_set::set(word(1, 3)), 4), Err(Fault::StillAttached));
    assert_eq!(plan_reclaim(rx_is_set::set(word(1, 3)), 4), Err(Fault::StillAttached));
    assert_eq!(plan_reclaim(word(1, 3), 0), Err(Fault::BadCapacity));
    assert_eq!(plan_reclaim(word(1, 9), 4), Err(Fault::Corrupted));
}

#[test]
fn updates_change_one_field() {
    let seen = tx_is_set::set(word(2, 5));

    let moved = stored(move_tail(seen, 6));
    assert_eq!((head::get(moved), tail::get(moved)), (2, 6));
    assert!(tx_is_set::is_set(moved) && !rx_is_set::is_set(moved) && !is_closed::is_set(moved));

    let moved = stored(move_head(seen, 3));
    assert_eq!((head::get(moved), tail::get(moved)), (3, 5));

    let closed = stored(raise_closed(seen));
    assert!(is_closed::is_set(closed) && tx_is_set::is_set(closed));
    assert_eq!((head::get(closed), tail::get(closed)), (2, 5));
    assert_eq!(stored(raise_closed(closed)), closed);
}

#[test]
fn attaching_twice_is_refused() {
    let with_tx = stored(attach_tx(0));
    assert!(tx_is_set::is_set(with_tx) && !rx_is_set::is_set(with_tx));
    assert!(matches!(attach_tx(with_tx), Err(Fault::AlreadyAttached)));

    let with_both = stored(attach_rx(with_tx));
    assert!(tx_is_set::is_set(with_both) && rx_is_set::is_set(with_both));
    assert!(matches!(attach_rx(with_both), Err(Fault::AlreadyAttached)));
}

#[test]
fn rendezvous_byte_has_the_documented_bits() {
    assert_eq!(mono::set_closed(0), 0b0001);
    assert_eq!(mono::set_full(0, true), 0b0010);
    assert_eq!(mono::set_tx(0), 0b0100);
    assert_eq!(mono::set_rx(0), 0b1000);
    assert_eq!(mono::set_full(0b1111, false), 0b1101);
    assert!(mono::is_closed(0b0001) && !mono::is_closed(0b1110));
    assert!(mono::is_full(0b0010) && !mono::is_full(0b1101));
    assert!(mono::tx_is_set(0b0100) && !mono::tx_is_set(0b1011));
    assert!(mono::rx_is_set(0b1000) && !mono::rx_is_set(0b0111));
}

#[test]
fn rendezvous_plans() {
    assert_eq!(mono::plan_send(0b0000), mono::SendPlan::Write);
    assert_eq!(mono::plan_send(0b1100), mono::SendPlan::Write);
    assert_eq!(mono::plan_send(0b0010), mono::SendPlan::Full);
    assert_eq!(mono::plan_send(0b0001), mono::SendPlan::Closed);
    assert_eq!(mono::plan_send(0b0011), mono::SendPlan::Closed);

    assert_eq!(mono::plan_recv(0b0000), mono::RecvPlan::Empty);
    assert_eq!(mono::plan_recv(0b0001), mono::RecvPlan::Closed);
    assert_eq!(mono::plan_recv(0b0010), mono::RecvPlan::Take);
    assert_eq!(mono::plan_recv(0b0011), mono::RecvPlan::Take);

    assert_eq!(mono::plan_reclaim(0b0000), Ok(0));
    assert_eq!(mono::plan_reclaim(0b0010), Ok(1));
    assert_eq!(mono::plan_reclaim(0b0111), Ok(1));
    assert_eq!(mono::plan_reclaim(0b0110), Err(Fault::StillAttached));
    assert_eq!(mono::plan_reclaim(0b1000), Err(Fault::StillAttached));
}

fn wide_word(head_avail: usize, head_taken: usize, tail_avail: usize, tail_taken: usize) -> usize {
    let bits = wide::set_head_avail(0, head_avail);
    let bits = wide::set_head_taken(bits, head_taken);
    let bits = wide::set_tail_avail(bits, tail_avail);
    wide::set_tail_taken(bits, tail_taken)
}

#[test]
fn wide_word_round_trip() {
    let top = wide::max_len();
    for (a, b, c, d) in [(0, 0, 0, 0), (1, 2, 3, 4), (top, 0, top, 0), (top, top, top, top)] {
        for closed in [false, true] {
            let bits = wide_word(a, b, c, d);
            let bits = if closed { wide::set_closed(bits) } else { bits };
            assert_eq!(wide::head_avail(bits), a);
            assert_eq!(wide::head_taken(bits), b);
            assert_eq!(wide::tail_avail(bits), c);
            assert_eq!(wide::tail_taken(bits), d);
            assert_eq!(wide::is_closed(bits), closed);
        }
    }
    if usize::BITS == 64 {
        assert_eq!(top, 32_767);
    } else {
        assert_eq!(top, 127);
    }
}

#[test]
fn a_producer_claims_at_tail_taken() {
    let seen = wide_word(1, 1, 2, 3);
    match claims::reserve_tail(seen, 5) {
        Ok(AtomicUpdate::Store(new)) => assert_eq!(new, wide::set_tail_taken(seen, 4)),
        _ => panic!("no claim"),
    }
    match claims::reserve_tail(wide_word(1, 1, 4, 4), 5) {
        Ok(AtomicUpdate::Store(new)) => assert_eq!(wide::tail_taken(new), 0),
        _ => panic!("no claim"),
    }
    assert!(matches!(claims::reserve_tail(wide_word(1, 1, 0, 0), 5), Err(claims::SendRefusal::Full)));
    assert!(matches!(
        claims::reserve_tail(wide_word(1, 2, 0, 0), 5),
        Err(claims::SendRefusal::Full)
    ));
    assert!(matches!(
        claims::reserve_tail(wide::set_closed(seen), 5),
        Err(claims::SendRefusal::Closed)
    ));
    assert!(matches!(
        claims::reserve_tail(seen, 0),
        Err(claims::SendRefusal::Fault(Fault::BadCapacity))
    ));
    assert!(matches!(
        claims::reserve_tail(seen, 3),
        Err(claims::SendRefusal::Fault(Fault::Corrupted))
    ));
}

#[test]
fn a_consumer_claims_at_head_taken() {
    let seen = wide_word(1, 2, 4, 4);
    match claims::reserve_head(seen, 5) {
        Ok(AtomicUpdate::Store(new)) => assert_eq!(new, wide::set_head_taken(seen, 3)),
        _ => panic!("no claim"),
    }
    assert!(matches!(
        claims::reserve_head(wide_word(1, 4, 4, 0), 5),
        Err(claims::RecvRefusal::Empty)
    ));
    assert!(matches!(
        claims::reserve_head(wide::set_closed(wide_word(1, 4, 4, 0)), 5),
        Err(claims::RecvRefusal::Closed)
    ));
    match claims::reserve_head(wide::set_closed(seen), 5) {
        Ok(AtomicUpdate::Store(new)) => assert_eq!(wide::head_taken(new), 3),
        _ => panic!("no claim"),
    }
    assert!(matches!(
        claims::reserve_head(seen, 0),
        Err(claims::RecvRefusal::Fault(Fault::BadCapacity))
    ));
    assert!(matches!(
        claims::reserve_head(seen, 2),
        Err(claims::RecvRefusal::Fault(Fault::Corrupted))
    ));
}

#[test]
fn commits_wait_for_their_turn() {
    let seen = wide_word(1, 3, 2, 4);
    assert!(matches!(claims::commit_tail(seen, 3, 4), Ok(AtomicUpdate::Retry)));
    match claims::commit_tail(seen, 2, 3) {
        Ok(AtomicUpdate::Store(new)) => assert_eq!(new, wide::set_tail_avail(seen, 3)),
        _ => panic!("not published"),
    }
    assert!(matches!(claims::commit_head(seen, 2, 3), Ok(AtomicUpdate::Retry)));
    match claims::commit_head(seen, 1, 2) {
        Ok(AtomicUpdate::Store(new)) => assert_eq!(new, wide::set_head_avail(seen, 2)),
        _ => panic!("not released"),
    }
}

#[test]
fn wide_reclaim_plan() {
    assert_eq!(claims::plan_reclaim(wide_word(1, 1, 4, 4), 0, 6), Ok((1, 3)));
    assert_eq!(claims::plan_reclaim(wide_word(4, 4, 1, 1), 0, 6), Ok((4, 3)));
    assert_eq!(claims::plan_reclaim(wide_word(2, 2, 2, 2), 0, 6), Ok((2, 0)));
    assert_eq!(claims::plan_reclaim(wide_word(1, 1, 4, 4), 1, 6), Err(Fault::StillAttached));
    assert_eq!(claims::plan_reclaim(wide_word(1, 2, 4, 4), 0, 6), Err(Fault::Corrupted));
    assert_eq!(claims::plan_reclaim(wide_word(1, 1, 3, 4), 0, 6), Err(Fault::Corrupted));
    assert_eq!(claims::plan_reclaim(wide_word(1, 1, 4, 4), 0, 0), Err(Fault::BadCapacity));
}

#[test]
fn update_loop_stores_what_the_transform_asks() {
    let cell = AtomicUsize::new(5);
    let done = compare_exchange_loop(&cell, ATOMIC_UPDATE_MAX_ITERATIONS, None, |seen: usize| {
        Ok::<_, Fault>(AtomicUpdate::Store(seen * 2 + 1))
    });
    assert_eq!(done, Ok(11));
    assert_eq!(cell.load(Ordering::SeqCst), 11);
}

#[test]
fn update_loop_recovers_from_a_stale_observation() {
    let cell = AtomicUsize::new(5);
    let done = compare_exchange_loop(&cell, 2, Some(4), |seen: usize| {
        Ok::<_, Fault>(AtomicUpdate::Store(seen + 100))
    });
    assert_eq!(done, Ok(105));
    assert_eq!(cell.load(Ordering::SeqCst), 105);

    let done = compare_exchange_loop(&cell, 1, Some(4), |seen: usize| {
        Ok::<_, Fault>(AtomicUpdate::Store(seen + 100))
    });
    assert_eq!(done, Err(None));
    assert_eq!(cell.load(Ordering::SeqCst), 105);
}

#[test]
fn update_loop_hands_the_error_on() {
    let cell = AtomicU8::new(0b0100);
    let done = compare_exchange_loop(&cell, ATOMIC_UPDATE_MAX_ITERATIONS, None, mono::attach_tx);
    assert_eq!(done, Err(Some(Fault::AlreadyAttached)));
    assert_eq!(cell.load(Ordering::SeqCst), 0b0100);

    let done = compare_exchange_loop(&cell, ATOMIC_UPDATE_MAX_ITERATIONS, None, mono::attach_rx);
    assert_eq!(done, Ok(0b1100));
    assert_eq!(cell.load(Ordering::SeqCst), 0b1100);
}

#[test]
fn update_loop_gives_up_at_the_ceiling() {
    let cell = AtomicUsize::new(7);
    let rounds = AtomicUsize::new(0);
    let done = compare_exchange_loop(&cell, ATOMIC_UPDATE_MAX_ITERATIONS, None, |_seen: usize| {
        rounds.fetch_add(1, Ordering::SeqCst);
        Ok::<AtomicUpdate<usize>, Fault>(AtomicUpdate::Retry)
    });
    assert_eq!(done, Err(None));
    assert_eq!(rounds.load(Ordering::SeqCst), 1024);
    assert_eq!(cell.load(Ordering::SeqCst), 7);

    let done = compare_exchange_loop(&cell, 0, None, |seen: usize| {
        Ok::<_, Fault>(AtomicUpdate::Store(seen + 1))
    });
    assert_eq!(done, Err(None));
    assert_eq!(cell.load(Ordering::SeqCst), 7);
}

#[test]
fn atomic_value_reads_and_swaps() {
    let cell = AtomicUsize::new(3);
    assert_eq!(AtomicValue::load(&cell), 3);
    assert_eq!(AtomicValue::compare_exchange(&cell, 3, 4), Ok(3));
    assert_eq!(AtomicValue::compare_exchange(&cell, 3, 5), Err(4));
    assert_eq!(AtomicValue::load(&cell), 4);

    let byte = AtomicU8::new(1);
    assert_eq!(AtomicValue::compare_exchange(&byte, 1, 2), Ok(1));
    assert_eq!(AtomicValue::load(&byte), 2);
}

#[test]
fn update_loop_reads_again_after_a_retry() {
    let cell = AtomicUsize::new(10);
    let done = compare_exchange_loop(&cell, 2, None, |seen: usize| {
        if seen == 10 {
            cell.store(20, Ordering::SeqCst);
            Ok::<_, Fault>(AtomicUpdate::Retry)
        } else {
            Ok(AtomicUpdate::Store(seen + 1))
        }
    });
    assert_eq!(done, Ok(21));
    assert_eq!(cell.load(Ordering::SeqCst), 21);
}

#[test]
fn update_loop_asks_once_when_nothing_interferes() {
    let cell = AtomicUsize::new(3);
    let rounds = AtomicUsize::new(0);
    let done = compare_exchange_loop(&cell, 1, Some(3), |seen: usize| {
        rounds.fetch_add(1, Ordering::SeqCst);
        Ok::<_, Fault>(AtomicUpdate::Store(seen * 7))
    });
    assert_eq!(done, Ok(21));
    assert_eq!(rounds.load(Ordering::SeqCst), 1);
    assert_eq!(cell.load(Ordering::SeqCst), 21);
}

#[test]
fn update_loop_refuses_the_value_it_was_given() {
    let cell = AtomicUsize::new(3);
    let done = compare_exchange_loop(&cell, 5, Some(8), |seen: usize| {
        if seen == 8 {
            Err(Fault::Corrupted)
        } else {
            Ok(AtomicUpdate::Store(seen + 1))
        }
    });
    assert_eq!(done, Err(Some(Fault::Corrupted)));
    assert_eq!(cell.load(Ordering::SeqCst), 3);
}

#[test]
fn update_loop_goes_on_with_what_a_failed_swap_reported() {
    let cell = AtomicUsize::new(40);
    let shown = std::sync::Mutex::new(Vec::new());
    let done = compare_exchange_loop(&cell, 2, Some(7), |seen: usize| {
        shown.lock().expect("lock").push(seen);
        Ok::<_, Fault>(AtomicUpdate::Store(seen + 2))
    });
    assert_eq!(done, Ok(42));
    assert_eq!(cell.load(Ordering::SeqCst), 42);
    assert_eq!(*shown.lock().expect("lock"), vec![7, 40]);
}
