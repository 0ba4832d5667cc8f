use core::borrow::Borrow;
use core::future::poll_fn;
use core::task::Poll;
use std::sync::atomic::{AtomicBool, AtomicUsize, Ordering};
use std::sync::Arc;

use airlock::error::{Fault, RecvError, RecvErrorNoWait, SendError, SendErrorNoWait};
use airlock::mpmc::{Link, Rx, Tx};
use airlock::poll::Polled;
use airlock::slot::Slot;
use futures::executor::{block_on, ThreadPool};
use futures::future::{join, join_all};
use futures::task::{waker, ArcWake, AtomicWaker, SpawnExt};

#[derive(Debug, Clone, Default)]
struct Counter(Arc<()>, Arc<()>);

#[derive(Debug)]
struct Counted<T>(Arc<()>, T);

impl Counter {
    fn new() -> Self {
        Default::default()
    }

    fn count(&self) -> usize {
        Arc::strong_count(&self.0) - Arc::strong_count(&self.1)
    }

    fn add<T>(&self, value: T) -> Counted<T> {
        Counted(Arc::clone(&self.0), value)
    }
}

impl<T> Counted<T> {
    fn unwrap(self) -> T {
        self.1
    }
}

#[derive(Default)]
struct Woken(AtomicUsize);

impl ArcWake for Woken {
    fn wake_by_ref(arc_self: &Arc<Self>) {
        arc_self.0.fetch_add(1, Ordering::SeqCst);
    }
}

type Value = Counted<usize>;
type Seats<const SIZE: usize> = [(AtomicBool, AtomicWaker); SIZE];

const BUFFER_SIZE: usize = 64;
const WAKERS_COUNT: usize = 8;

fn make_buffer<T, const SIZE: usize>() -> [Slot<T>; SIZE] {
    core::array::from_fn(|_| Default::default())
}

fn make_wakers<const SIZE: usize>() -> Seats<SIZE> {
    core::array::from_fn(|_| Default::default())
}

async fn send<T, L, B, TW, RW>(tx: &mut Tx<T, L, B, TW, RW>, value: T) -> Result<(), SendError<T>>
where
    L: Borrow<Link<T, B, TW, RW>>,
    B: AsRef<[Slot<T>]>,
    TW: AsRef<[(AtomicBool, AtomicWaker)]>,
    RW: AsRef<[(AtomicBool, AtomicWaker)]>,
{
    let mut value = Some(value);
    poll_fn(|cx| match tx.poll_send(cx.waker(), &mut value).expect("fault") {
        Polled::Ready(done) => Poll::Ready(done),
        Polled::Pending => Poll::Pending,
    })
    .await
}

async fn recv<T, L, B, TW, RW>(rx: &mut Rx<T, L, B, TW, RW>) -> Result<T, RecvError>
where
    L: Borrow<Link<T, B, TW, RW>>,
    B: AsRef<[Slot<T>]>,
    TW: AsRef<[(AtomicBool, AtomicWaker)]>,
    RW: AsRef<[(AtomicBool, AtomicWaker)]>,
{
    poll_fn(|cx| match rx.poll_recv(cx.waker()).expect("fault") {
        Polled::Ready(done) => Poll::Ready(done),
        Polled::Pending => Poll::Pending,
    })
    .await
}

#[test]
fn mpmc_t_00() {
    let tx_wakers = make_wakers::<WAKERS_COUNT>();
    let rx_wakers = make_wakers::<WAKERS_COUNT>();
    let buffer = make_buffer::<Value, BUFFER_SIZE>();
    let _link = Link::<Value, _, _, _>::new(&buffer, &tx_wakers, &rx_wakers).expect("link");
}

#[test]
fn mpmc_t_01() {
    let tx_wakers = make_wakers::<WAKERS_COUNT>();
    let rx_wakers = make_wakers::<WAKERS_COUNT>();
    let buffer = make_buffer::<Value, BUFFER_SIZE>();
    let link = Link::<Value, _, _, _>::new(&buffer, &tx_wakers, &rx_wakers).expect("link");

    let _tx_1 = Tx::new(&link).expect("tx-1");
    let _tx_2 = Tx::new(&link).expect("tx-2");

    let _rx_1 = Rx::new(&link).expect("rx-1");
    let _rx_2 = Rx::new(&link).expect("rx-2");
}

#[test]
#[should_panic]
fn mpmc_t_02() {
    let tx_wakers = make_wakers::<1>();
    let rx_wakers = make_wakers::<1>();
    let buffer = make_buffer::<Value, 2>();
    let link = Link::<Value, _, _, _>::new(&buffer, &tx_wakers, &rx_wakers).expect("link");

    let _tx_1 = Tx::new(&link).expect("tx-1");
    let _tx_2 = Tx::new(&link).expect("tx-2");
}

#[test]
#[should_panic]
fn mpmc_t_03() {
    let tx_wakers = make_wakers::<1>();
    let rx_wakers = make_wakers::<1>();
    let buffer = make_buffer::<Value, 2>();
    let link = Link::<Value, _, _, _>::new(&buffer, &tx_wakers, &rx_wakers).expect("link");

    let _rx_1 = Rx::new(&link).expect("rx-1");
    let _rx_2 = Rx::new(&link).expect("rx-2");
}

#[test]
fn mpmc_t_04() {
    let counter = Counter::new();

    {
        let tx_wakers = make_wakers::<1>();
        let rx_wakers = make_wakers::<1>();
        let buffer = make_buffer::<Value, 2>();
        let link = Link::<Value, _, _, _>::new(&buffer, &tx_wakers, &rx_wakers).expect("link");

        let mut tx_1 = Tx::new(&link).expect("tx-1");
        let mut _rx_1 = Rx::new(&link).expect("rx-1");

        tx_1.send_nowait(counter.add(1)).expect("fault").expect("tx-1.send-nowait");
        assert!(tx_1
            .send_nowait(counter.add(1))
            .expect("fault")
            .expect_err("tx-1.send-nowait")
            .is_full());
    }
    assert_eq!(counter.count(), 0);
}

#[test]
fn mpmc_t_05() {
    let counter = Counter::new();

    {
        let tx_wakers = make_wakers::<1>();
        let rx_wakers = make_wakers::<1>();
        let buffer = make_buffer::<Value, 2>();
        let link = Link::<Value, _, _, _>::new(&buffer, &tx_wakers, &rx_wakers).expect("link");

        let mut tx_1 = Tx::new(&link).expect("tx-1");
        let mut rx_1 = Rx::new(&link).expect("rx-1");

        tx_1.send_nowait(counter.add(1)).expect("fault").expect("tx-1.send-nowait");
        assert_eq!(rx_1.recv_nowait().expect("fault").expect("rx-1.recv-nowait").unwrap(), 1);
        assert!(rx_1.recv_nowait().expect("fault").expect_err("rx-1.recv-nowait").is_empty());
    }
    assert_eq!(counter.count(), 0);
}

#[test]
fn mpmc_t_06() {
    let counter = Counter::new();

    {
        let tx_wakers = make_wakers::<2>();
        let rx_wakers = make_wakers::<2>();
        let buffer = make_buffer::<Value, 3>();
        let link = Link::<Value, _, _, _>::new(&buffer, &tx_wakers, &rx_wakers).expect("link");

        let mut tx_1 = Tx::new(&link).expect("tx-1");
        let mut tx_2 = Tx::new(&link).expect("tx-2");

        let mut rx_1 = Rx::new(&link).expect("rx-1");
        let mut rx_2 = Rx::new(&link).expect("rx-2");

        block_on(async {
            send(&mut tx_1, counter.add(1)).await.expect("tx-1.send");
            send(&mut tx_2, counter.add(2)).await.expect("tx-2.send");
            assert_eq!(recv(&mut rx_1).await.expect("rx-1.recv").unwrap(), 1);
            assert_eq!(recv(&mut rx_2).await.expect("rx-2.recv").unwrap(), 2);
        });
    }
    assert_eq!(counter.count(), 0);
}

#[test]
fn mpmc_t_07() {
    let counter = Counter::new();

    const ITERATIONS: usize = 125_000;

    {
        let tx_wakers = make_wakers::<WAKERS_COUNT>();
        let rx_wakers = make_wakers::<WAKERS_COUNT>();
        let buffer = make_buffer::<Value, BUFFER_SIZE>();
        let link = Link::<Value, _, _, _>::new(&buffer, &tx_wakers, &rx_wakers).expect("link");

        let producers = (0..WAKERS_COUNT).map(|_| async {
            let mut tx = Tx::new(&link).expect("tx");
            for i in 0..ITERATIONS {
                send(&mut tx, counter.add(i)).await.expect("tx.send");
            }
            tx.detach().expect("fault");
        });
        let consumers = (0..WAKERS_COUNT).map(|_| async {
            let mut rx = Rx::new(&link).expect("rx");
            for _i in 0..ITERATIONS {
                recv(&mut rx).await.expect("rx.recv");
            }
            rx.detach().expect("fault");
        });

        let producers = join_all(producers);
        let consumers = join_all(consumers);

        block_on(join(producers, consumers));
    }
    assert_eq!(counter.count(), 0);
}

#[test]
fn mpmc_t_08() {
    let counter = Counter::new();

    const ITERATIONS: usize = 125_000;

    {
        let pool = ThreadPool::builder().pool_size(4).create().expect("pool");
        let tx_wakers = make_wakers::<WAKERS_COUNT>();
        let rx_wakers = make_wakers::<WAKERS_COUNT>();
        let buffer = make_buffer::<Value, BUFFER_SIZE>();
        let link =
            Arc::new(Link::<Value, _, _, _>::new(buffer, tx_wakers, rx_wakers).expect("link"));

        let producers: Vec<_> = (0..WAKERS_COUNT)
            .map(|_| {
                let counter = counter.clone();
                let link = Arc::clone(&link);
                async move {
                    let mut tx = Tx::new(Arc::clone(&link)).expect("tx");
                    for i in 0..ITERATIONS {
                        send(&mut tx, counter.add(i)).await.expect("tx.send");
                    }
                    tx.detach().expect("fault");
                }
            })
            .map(|task| pool.spawn_with_handle(task).expect("spawn"))
            .collect();
        let consumers: Vec<_> = (0..WAKERS_COUNT)
            .map(|_| {
                let link = Arc::clone(&link);
                async move {
                    let mut rx = Rx::new(Arc::clone(&link)).expect("rx");
                    for _i in 0..ITERATIONS {
                        recv(&mut rx).await.expect("rx.recv");
                    }
                    rx.detach().expect("fault");
                }
            })
            .map(|task| pool.spawn_with_handle(task).expect("spawn"))
            .collect();

        block_on(join(join_all(producers), join_all(consumers)));

        let mut link = Arc::try_unwrap(link).ok().expect("sole owner");
        assert_eq!(link.reclaim(), Ok(0));
    }
    assert_eq!(counter.count(), 0);
}

#[test]
fn mpmc_fifo_under_contention() {
    const ITERATIONS: usize = 125_000;
    const PRODUCERS: usize = 2;
    const CONSUMERS: usize = 2;

    let tx_wakers = make_wakers::<PRODUCERS>();
    let rx_wakers = make_wakers::<CONSUMERS>();
    let buffer = make_buffer::<(usize, usize), 3>();
    let link = Link::new(&buffer, &tx_wakers, &rx_wakers).expect("link");
    let running = AtomicUsize::new(PRODUCERS);

    let producers = join_all((0..PRODUCERS).map(|id| {
        let link = &link;
        let running = &running;
        async move {
            let mut tx = Tx::new(link).expect("tx");
            for seq in 0..ITERATIONS {
                send(&mut tx, (id, seq)).await.expect("tx.send");
            }
            if running.fetch_sub(1, Ordering::SeqCst) == 1 {
                tx.close().expect("fault");
            }
            tx.detach().expect("fault");
        }
    }));
    let consumers = join_all((0..CONSUMERS).map(|_| {
        let link = &link;
        async move {
            let mut rx = Rx::new(link).expect("rx");
            let mut seen = Vec::new();
            while let Ok(value) = recv(&mut rx).await {
                seen.push(value);
            }
            rx.detach().expect("fault");
            seen
        }
    }));

    let (_, received) = block_on(join(producers, consumers));

    let total: usize = received.iter().map(Vec::len).sum();
    assert_eq!(total, PRODUCERS * ITERATIONS);

    let mut times_seen = vec![[0u8; PRODUCERS]; ITERATIONS];
    for seen in &received {
        let mut next = [0usize; PRODUCERS];
        for &(id, seq) in seen {
            assert!(seq >= next[id], "a consumer saw producer {} out of order", id);
            next[id] = seq + 1;
            times_seen[seq][id] += 1;
        }
    }
    assert!(times_seen.iter().all(|row| row.iter().all(|&times| times == 1)));
}

#[test]
fn mpmc_fifo_on_one_thread_is_global() {
    let tx_wakers = make_wakers::<2>();
    let rx_wakers = make_wakers::<2>();
    let buffer = make_buffer::<u32, 5>();
    let link = Link::new(&buffer, &tx_wakers, &rx_wakers).expect("link");
    let mut tx_1 = Tx::new(&link).expect("tx-1");
    let mut tx_2 = Tx::new(&link).expect("tx-2");
    let mut rx_1 = Rx::new(&link).expect("rx-1");
    let mut rx_2 = Rx::new(&link).expect("rx-2");

    assert_eq!(tx_1.send_nowait(10), Ok(Ok(())));
    assert_eq!(tx_2.send_nowait(20), Ok(Ok(())));
    assert_eq!(tx_1.send_nowait(11), Ok(Ok(())));
    assert_eq!(tx_2.send_nowait(21), Ok(Ok(())));
    assert_eq!(tx_1.send_nowait(12), Ok(Err(SendErrorNoWait::Full(12))));

    assert_eq!(rx_2.recv_nowait(), Ok(Ok(10)));
    assert_eq!(rx_1.recv_nowait(), Ok(Ok(20)));
    assert_eq!(tx_2.send_nowait(22), Ok(Ok(())));
    assert_eq!(rx_1.recv_nowait(), Ok(Ok(11)));
    assert_eq!(rx_2.recv_nowait(), Ok(Ok(21)));
    assert_eq!(rx_2.recv_nowait(), Ok(Ok(22)));
    assert_eq!(rx_1.recv_nowait(), Ok(Err(RecvErrorNoWait::Empty)));
}

#[test]
fn mpmc_close_broadcasts_to_waiting_consumers() {
    let tx_wakers = make_wakers::<4>();
    let rx_wakers = make_wakers::<4>();
    let buffer = make_buffer::<u32, 4>();
    let link = Link::new(&buffer, &tx_wakers, &rx_wakers).expect("link");

    let mut tx = Tx::new(&link).expect("tx");
    let mut consumers: Vec<_> = (0..4).map(|_| Rx::new(&link).expect("rx")).collect();
    let flags: Vec<_> = (0..4).map(|_| Arc::new(Woken::default())).collect();

    for (rx, flag) in consumers.iter_mut().zip(&flags) {
        assert_eq!(rx.poll_recv(&waker(Arc::clone(flag))), Ok(Polled::Pending));
    }
    assert!(flags.iter().all(|flag| flag.0.load(Ordering::SeqCst) == 0));

    tx.close().expect("fault");

    assert!(flags.iter().all(|flag| flag.0.load(Ordering::SeqCst) == 1));
    for (rx, flag) in consumers.iter_mut().zip(&flags) {
        assert_eq!(
            rx.poll_recv(&waker(Arc::clone(flag))),
            Ok(Polled::Ready(Err(RecvError::Closed)))
        );
    }
}

#[test]
fn mpmc_close_broadcasts_to_waiting_producers() {
    let tx_wakers = make_wakers::<4>();
    let rx_wakers = make_wakers::<4>();
    let buffer = make_buffer::<u32, 2>();
    let link = Link::new(&buffer, &tx_wakers, &rx_wakers).expect("link");

    let mut rx = Rx::new(&link).expect("rx");
    let mut producers: Vec<_> = (0..4).map(|_| Tx::new(&link).expect("tx")).collect();
    let flags: Vec<_> = (0..4).map(|_| Arc::new(Woken::default())).collect();

    assert_eq!(producers[0].send_nowait(0), Ok(Ok(())));
    let mut held: Vec<_> = (1..5).map(Some).collect();
    for ((tx, flag), value) in producers.iter_mut().zip(&flags).zip(held.iter_mut()) {
        assert_eq!(tx.poll_send(&waker(Arc::clone(flag)), value), Ok(Polled::Pending));
    }
    assert_eq!(held, vec![Some(1), Some(2), Some(3), Some(4)]);
    assert!(flags.iter().all(|flag| flag.0.load(Ordering::SeqCst) == 0));

    rx.close().expect("fault");

    assert!(flags.iter().all(|flag| flag.0.load(Ordering::SeqCst) == 1));
    for (index, ((tx, flag), value)) in
        producers.iter_mut().zip(&flags).zip(held.iter_mut()).enumerate()
    {
        assert_eq!(
            tx.poll_send(&waker(Arc::clone(flag)), value),
            Ok(Polled::Ready(Err(SendError::Closed(index as u32 + 1))))
        );
    }
    assert_eq!(rx.recv_nowait(), Ok(Ok(0)));
    assert_eq!(rx.recv_nowait(), Ok(Err(RecvErrorNoWait::Closed)));
}

#[test]
fn mpmc_seats_are_given_back() {
    let tx_wakers = make_wakers::<1>();
    let rx_wakers = make_wakers::<1>();
    let buffer = make_buffer::<u8, 2>();
    let mut link = Link::new(&buffer, &tx_wakers, &rx_wakers).expect("link");
    {
        let tx = Tx::new(&link).expect("tx");
        assert_eq!(Tx::new(&link).err(), Some(Fault::SeatsExhausted));
        tx.detach().expect("fault");
        let tx = Tx::new(&link).expect("tx again");
        let rx = Rx::new(&link).expect("rx");
        assert_eq!(Rx::new(&link).err(), Some(Fault::SeatsExhausted));
        rx.detach().expect("fault");
        std::mem::drop(tx);
    }
    assert_eq!(link.reclaim(), Err(Fault::StillAttached));
}

#[test]
fn mpmc_without_seats_nobody_attaches() {
    let tx_wakers = make_wakers::<0>();
    let rx_wakers = make_wakers::<0>();
    let buffer = make_buffer::<u8, 2>();
    let link = Link::new(&buffer, &tx_wakers, &rx_wakers).expect("link");
    assert_eq!(Tx::new(&link).err(), Some(Fault::SeatsExhausted));
    assert_eq!(Rx::new(&link).err(), Some(Fault::SeatsExhausted));
}

#[test]
fn mpmc_reclaim_destroys_what_is_left() {
    let counter = Counter::new();
    let tx_wakers = make_wakers::<1>();
    let rx_wakers = make_wakers::<1>();
    let buffer = make_buffer::<Value, 4>();
    let mut link = Link::new(&buffer, &tx_wakers, &rx_wakers).expect("link");
    {
        let mut tx = Tx::new(&link).expect("tx");
        let mut rx = Rx::new(&link).expect("rx");
        for i in 0..3 {
            tx.send_nowait(counter.add(i)).expect("fault").expect("send");
        }
        assert_eq!(rx.recv_nowait().expect("fault").expect("recv").unwrap(), 0);
        assert_eq!(rx.recv_nowait().expect("fault").expect("recv").unwrap(), 1);
        tx.send_nowait(counter.add(3)).expect("fault").expect("send");
        tx.send_nowait(counter.add(4)).expect("fault").expect("send");
        tx.detach().expect("fault");
        rx.detach().expect("fault");
    }
    assert_eq!(counter.count(), 3);
    assert_eq!(link.reclaim(), Ok(3));
    assert_eq!(counter.count(), 0);
}

#[test]
fn mpmc_without_slots_cannot_send() {
    let tx_wakers = make_wakers::<1>();
    let rx_wakers = make_wakers::<1>();
    let buffer = make_buffer::<u8, 0>();
    let link = Link::new(&buffer, &tx_wakers, &rx_wakers).expect("link");
    let mut tx = Tx::new(&link).expect("tx");
    let mut rx = Rx::new(&link).expect("rx");
    assert_eq!(tx.send_nowait(1), Err(Fault::BadCapacity));
    assert_eq!(rx.recv_nowait(), Ok(Err(RecvErrorNoWait::Empty)));
}

#[test]
fn mpmc_after_close_sends_fail_and_receives_drain() {
    let tx_wakers = make_wakers::<2>();
    let rx_wakers = make_wakers::<2>();
    let buffer = make_buffer::<String, 4>();
    let link = Link::new(&buffer, &tx_wakers, &rx_wakers).expect("link");
    let mut tx_1 = Tx::new(&link).expect("tx-1");
    let mut tx_2 = Tx::new(&link).expect("tx-2");
    let mut rx = Rx::new(&link).expect("rx");

    assert_eq!(tx_1.send_nowait(String::from("a")), Ok(Ok(())));
    assert_eq!(tx_2.send_nowait(String::from("b")), Ok(Ok(())));
    tx_1.close().expect("fault");
    tx_1.close().expect("fault");
    assert_eq!(
        tx_2.send_nowait(String::from("c")),
        Ok(Err(SendErrorNoWait::Closed(String::from("c"))))
    );
    assert_eq!(rx.recv_nowait(), Ok(Ok(String::from("a"))));
    assert_eq!(rx.recv_nowait(), Ok(Ok(String::from("b"))));
    assert_eq!(rx.recv_nowait(), Ok(Err(RecvErrorNoWait::Closed)));
    assert_eq!(rx.recv_nowait(), Ok(Err(RecvErrorNoWait::Closed)));
}

#[test]
fn mpmc_attaching_takes_the_first_free_seat() {
    let tx_wakers = make_wakers::<3>();
    let rx_wakers = make_wakers::<1>();
    let buffer = make_buffer::<u8, 2>();
    let mut link = Link::new(&buffer, &tx_wakers, &rx_wakers).expect("link");
    {
        let first = Tx::new(&link).expect("tx-1");
        let second = Tx::new(&link).expect("tx-2");
        let third = Tx::new(&link).expect("tx-3");
        let taken = |seat: usize| tx_wakers[seat].0.load(Ordering::SeqCst);
        assert!(taken(0) && taken(1) && taken(2));

        second.detach().expect("fault");
        assert!(taken(0) && !taken(1) && taken(2));
        first.detach().expect("fault");
        assert!(!taken(0) && !taken(1) && taken(2));

        let again = Tx::new(&link).expect("tx-4");
        assert!(taken(0) && !taken(1) && taken(2));
        again.detach().expect("fault");
        third.detach().expect("fault");
        assert!(!taken(0) && !taken(1) && !taken(2));
    }
    assert_eq!(link.reclaim(), Ok(0));
}
