use airlock::error::{Fault, RecvError, RecvErrorNoWait, SendError, SendErrorNoWait};
use airlock::mpmc::seats::{count_in, count_out, seat_left, seat_taken};
use airlock::poll::{settle_recv, settle_send, Polled};
use airlock::slot::Slot;
use airlock::utils::{after_swap, concluded};

#[test]
fn send_error_nowait_says_what_it_is() {
    let full = SendErrorNoWait::full(7);
    let closed = SendErrorNoWait::closed(8);
    assert_eq!(full, SendErrorNoWait::Full(7));
    assert_eq!(closed, SendErrorNoWait::Closed(8));
    assert!(full.is_full() && !full.is_closed());
    assert!(closed.is_closed() && !closed.is_full());
}

#[test]
fn send_error_nowait_changes_its_value_not_its_kind() {
    assert_eq!(SendErrorNoWait::full(()).map_value("a"), SendErrorNoWait::Full("a"));
    assert_eq!(SendErrorNoWait::closed(1).map_value("b"), SendErrorNoWait::Closed("b"));
}

#[test]
fn recv_error_nowait_says_what_it_is() {
    assert_eq!(RecvErrorNoWait::empty(), RecvErrorNoWait::Empty);
    assert_eq!(RecvErrorNoWait::closed(), RecvErrorNoWait::Closed);
    assert!(RecvErrorNoWait::empty().is_empty() && !RecvErrorNoWait::empty().is_closed());
    assert!(RecvErrorNoWait::closed().is_closed() && !RecvErrorNoWait::closed().is_empty());
}

#[test]
fn blocking_errors_are_closed() {
    assert_eq!(SendError::closed("x"), SendError::Closed("x"));
    assert!(SendError::closed("x").is_closed());
    assert_eq!(RecvError::closed(), RecvError::Closed);
    assert!(RecvError::closed().is_closed());
}

#[test]
fn faults_are_told_apart() {
    let all = [
        Fault::AlreadyAttached,
        Fault::SeatsExhausted,
        Fault::SeatNotOccupied,
        Fault::UpdateExhausted,
        Fault::StillAttached,
        Fault::RefCount,
        Fault::BadCapacity,
        Fault::Corrupted,
    ];
    for (i, a) in all.iter().enumerate() {
        for (j, b) in all.iter().enumerate() {
            assert_eq!(a == b, i == j);
        }
    }
}

#[test]
fn polled_is_pending_or_ready() {
    assert!(Polled::<u8>::Pending.is_pending());
    assert!(!Polled::Ready(3).is_pending());
}

#[test]
fn slot_holds_one_value() {
    let slot = Slot::new();
    assert_eq!(slot.take(), None);
    assert_eq!(slot.write(String::from("a")), None);
    assert_eq!(slot.write(String::from("b")), Some(String::from("a")));
    assert_eq!(slot.take(), Some(String::from("b")));
    assert_eq!(slot.take(), None);

    let slot: Slot<u8> = Default::default();
    assert_eq!(slot.take(), None);
}

#[test]
fn a_receive_settles_into_a_poll_answer() {
    assert_eq!(settle_recv(Ok(Ok(5))), Ok(Polled::Ready(Ok(5))));
    assert_eq!(
        settle_recv::<u8>(Ok(Err(RecvErrorNoWait::Closed))),
        Ok(Polled::Ready(Err(RecvError::Closed)))
    );
    assert_eq!(settle_recv::<u8>(Ok(Err(RecvErrorNoWait::Empty))), Ok(Polled::Pending));
    assert_eq!(settle_recv::<u8>(Err(Fault::Corrupted)), Err(Fault::Corrupted));
}

#[test]
fn a_send_settles_into_a_poll_answer() {
    let mut kept = None;
    assert_eq!(settle_send::<&str>(Ok(Ok(())), &mut kept), Ok(Polled::Ready(Ok(()))));
    assert_eq!(kept, None);

    assert_eq!(settle_send(Ok(Err(SendErrorNoWait::Full("a"))), &mut kept), Ok(Polled::Pending));
    assert_eq!(kept, Some("a"));

    assert_eq!(
        settle_send(Ok(Err(SendErrorNoWait::Closed("b"))), &mut kept),
        Ok(Polled::Ready(Err(SendError::Closed("b"))))
    );
    assert_eq!(kept, None);

    kept = Some("c");
    assert_eq!(settle_send(Err(Fault::UpdateExhausted), &mut kept), Err(Fault::UpdateExhausted));
    assert_eq!(kept, None);
}

#[test]
fn an_update_concludes_in_a_value_or_a_fault() {
    assert_eq!(concluded(Ok(7)), Ok(7));
    assert_eq!(concluded::<u8>(Err(Some(Fault::AlreadyAttached))), Err(Fault::AlreadyAttached));
    assert_eq!(concluded::<u8>(Err(None)), Err(Fault::UpdateExhausted));
}

#[test]
fn endpoints_are_counted_within_the_counter() {
    assert_eq!(count_in(0), Ok(()));
    assert_eq!(count_in(usize::MAX - 1), Ok(()));
    assert_eq!(count_in(usize::MAX), Err(Fault::RefCount));
    assert_eq!(count_out(1), Ok(()));
    assert_eq!(count_out(usize::MAX), Ok(()));
    assert_eq!(count_out(0), Err(Fault::RefCount));
}

#[test]
fn a_buffer_has_to_fit_the_index_fields() {
    let top = airlock::spsc::buffered::bits::max_len();
    assert_eq!(airlock::spsc::buffered::ring::check_capacity(0), Ok(()));
    assert_eq!(airlock::spsc::buffered::ring::check_capacity(top - 1), Ok(()));
    assert_eq!(airlock::spsc::buffered::ring::check_capacity(top), Err(Fault::BadCapacity));
    assert_eq!(airlock::spsc::buffered::ring::check_capacity(usize::MAX), Err(Fault::BadCapacity));

    let top = airlock::mpmc::bits::max_len();
    assert_eq!(airlock::mpmc::ring::check_capacity(0), Ok(()));
    assert_eq!(airlock::mpmc::ring::check_capacity(top - 1), Ok(()));
    assert_eq!(airlock::mpmc::ring::check_capacity(top), Err(Fault::BadCapacity));
}

#[test]
fn a_swap_stores_or_reports_what_the_cell_held() {
    assert_eq!(after_swap(9, Ok(4)), Ok(9));
    assert_eq!(after_swap(9, Err(5)), Err(5));
    assert_eq!(after_swap(9, Err(9)), Err(9));
}

#[test]
fn a_seat_is_taken_only_when_it_was_free() {
    assert_eq!(seat_taken(3, false), Some(3));
    assert_eq!(seat_taken(3, true), None);
    assert_eq!(seat_taken(0, false), Some(0));
    assert_eq!(seat_left(true), Ok(()));
    assert_eq!(seat_left(false), Err(Fault::SeatNotOccupied));
}
