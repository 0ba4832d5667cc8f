use core::borrow::Borrow;
use core::future::poll_fn;
use core::task::Poll;
use std::sync::Arc;

use airlock::error::{Fault, RecvError, SendError};
use airlock::mono::{Link, Rx, Tx};
use airlock::poll::Polled;
use futures::executor::{block_on, ThreadPool};
use futures::future::join;
use futures::task::{noop_waker, SpawnExt};

#[derive(Debug, Clone, Default)]
struct Counter(Arc<()>, Arc<()>);

#[derive(Debug)]
struct Counted<T>(Arc<()>, T);

impl Counter {
    fn new() -> Self {
        Default::default()
    }

    fn count(&self) -> usize {
        Arc::strong_count(&self.0) - Arc::strong_count(&self.1)
    }

    fn add<T>(&self, value: T) -> Counted<T> {
        Counted(Arc::clone(&self.0), value)
    }
}

impl<T> Counted<T> {
    fn unwrap(self) -> T {
        self.1
    }
}

type Value = Counted<usize>;

async fn send<T, L>(tx: &mut Tx<T, L>, value: T) -> Result<(), SendError<T>>
where
    L: Borrow<Link<T>>,
{
    let mut value = Some(value);
    poll_fn(|cx| match tx.poll_send(cx.waker(), &mut value).expect("fault") {
        Polled::Ready(done) => Poll::Ready(done),
        Polled::Pending => Poll::Pending,
    })
    .await
}

async fn recv<T, L>(rx: &mut Rx<T, L>) -> Result<T, RecvError>
where
    L: Borrow<Link<T>>,
{
    poll_fn(|cx| match rx.poll_recv(cx.waker()).expect("fault") {
        Polled::Ready(done) => Poll::Ready(done),
        Polled::Pending => Poll::Pending,
    })
    .await
}

fn ping_pong_on_one_thread() {
    const ITERATIONS: usize = 1_000_000;

    let counter = Counter::new();
    {
        let link = Link::<Value>::new();

        let producer = async {
            let mut tx = Tx::new(&link).expect("tx");

            for i in 0..ITERATIONS {
                send(&mut tx, counter.add(i)).await.expect("tx.send");
            }
            tx.close().expect("fault");
        };
        let consumer = async {
            let mut rx = Rx::new(&link).expect("rx");

            let mut count = 0;

            while let Ok(_v) = recv(&mut rx).await.map(Counted::unwrap) {
                count += 1;
            }

            count
        };

        let ((), count) = block_on(join(producer, consumer));

        assert_eq!(count, ITERATIONS);
    }

    assert_eq!(counter.count(), 0);
}

fn ping_pong_across_threads() {
    const ITERATIONS: usize = 1_000_000;

    let counter = Counter::new();
    {
        let pool = ThreadPool::builder().pool_size(2).create().expect("pool");
        let link = Arc::new(Link::<Value>::new());

        let producer = {
            let counter = counter.clone();
            let link = Arc::clone(&link);
            async move {
                let mut tx = Tx::new(link).expect("tx");

                for i in 0..ITERATIONS {
                    send(&mut tx, counter.add(i)).await.expect("tx.send");
                }
                tx.close().expect("fault");
            }
        };
        let consumer = {
            let link = Arc::clone(&link);
            async move {
                let mut rx = Rx::new(link).expect("rx");

                let mut count = 0;

                while let Ok(_v) = recv(&mut rx).await.map(Counted::unwrap) {
                    count += 1;
                }

                count
            }
        };

        let producer = pool.spawn_with_handle(producer).expect("spawn");
        let consumer = pool.spawn_with_handle(consumer).expect("spawn");

        let ((), count) = block_on(join(producer, consumer));

        assert_eq!(count, ITERATIONS);
    }

    assert_eq!(counter.count(), 0);
}

#[test]
fn mono_t_06() {
    ping_pong_on_one_thread()
}

#[test]
fn mono_t_07() {
    ping_pong_across_threads()
}

#[test]
fn spsc_direct_t_06() {
    ping_pong_on_one_thread()
}

#[test]
fn spsc_direct_t_07() {
    ping_pong_across_threads()
}

#[test]
fn spsc_direct_t_00() {
    let _link = Link::<Value>::new();
}

#[test]
fn spsc_direct_t_01() {
    let counter = Counter::new();

    {
        let link = Link::<Value>::new();
        let mut rx = Rx::new(&link).expect("rx");
        let mut tx = Tx::new(&link).expect("tx");

        assert!(rx.recv_nowait().expect("fault").expect_err("rx.recv-nowait").is_empty());

        tx.send_nowait(counter.add(1)).expect("fault").expect("tx.send-nowait");
        assert!(tx.send_nowait(counter.add(2)).expect("fault").expect_err("tx.send-nowait").is_full());

        assert_eq!(rx.recv_nowait().expect("fault").expect("rx.recv-nowait").unwrap(), 1);
        assert!(rx.recv_nowait().expect("fault").expect_err("rx.recv-nowait").is_empty());

        tx.send_nowait(counter.add(3)).expect("fault").expect("tx.send-nowait");
        assert!(tx.send_nowait(counter.add(4)).expect("fault").expect_err("tx.send-nowait").is_full());

        assert_eq!(rx.recv_nowait().expect("fault").expect("rx.recv-nowait").unwrap(), 3);
    }

    assert_eq!(counter.count(), 0);
}

#[test]
fn spsc_direct_t_02() {
    let counter = Counter::new();

    {
        let link = Link::<Value>::new();
        let mut tx = Tx::new(&link).expect("tx");

        tx.send_nowait(counter.add(1)).expect("fault").expect("tx.send-nowait");
        assert!(tx.send_nowait(counter.add(2)).expect("fault").expect_err("tx.send-nowait").is_full());
    }

    assert_eq!(counter.count(), 0);
}

#[test]
fn spsc_direct_t_03() {
    let counter = Counter::new();

    {
        let link = Link::<Value>::new();
        let mut rx = Rx::new(&link).expect("rx");
        let mut tx = Tx::new(&link).expect("tx");

        assert!(rx.recv_nowait().expect("fault").expect_err("rx.recv-nowait").is_empty());

        tx.send_nowait(counter.add(1)).expect("fault").expect("tx.send-nowait");
        assert!(tx.send_nowait(counter.add(2)).expect("fault").expect_err("tx.send-nowait").is_full());

        tx.close().expect("fault");
        std::mem::drop(tx);
        assert_eq!(rx.recv_nowait().expect("fault").expect("rx.recv-nowait").unwrap(), 1);
        assert!(rx.recv_nowait().expect("fault").expect_err("rx.recv-nowait").is_closed());
    }

    assert_eq!(counter.count(), 0);
}

#[test]
fn spsc_direct_t_04() {
    let counter = Counter::new();

    {
        let link = Link::<Value>::new();
        let mut rx = Rx::new(&link).expect("rx");
        let mut tx = Tx::new(&link).expect("tx");

        assert!(rx.recv_nowait().expect("fault").expect_err("rx.recv-nowait").is_empty());
        rx.close().expect("fault");
        std::mem::drop(rx);
        assert!(tx.send_nowait(counter.add(1)).expect("fault").expect_err("tx.send-nowait").is_closed());
    }

    assert_eq!(counter.count(), 0);
}

#[test]
fn spsc_direct_t_05() {
    let counter = Counter::new();

    {
        let link = Link::<Value>::new();
        let mut rx = Rx::new(&link).expect("rx");
        let mut tx = Tx::new(&link).expect("tx");

        assert!(rx.recv_nowait().expect("fault").expect_err("rx.recv-nowait").is_empty());

        tx.send_nowait(counter.add(1)).expect("fault").expect("tx.send-nowait");
        assert!(tx.send_nowait(counter.add(2)).expect("fault").expect_err("tx.send-nowait").is_full());

        rx.close().expect("fault");
        std::mem::drop(rx);
        assert!(tx.send_nowait(counter.add(3)).expect("fault").expect_err("tx.send-nowait").is_closed());
    }

    assert_eq!(counter.count(), 0);
}

#[test]
#[should_panic]
fn t_08() {
    let link = Link::<Value>::new();
    let mut _rx_1 = Rx::new(&link).expect("rx-1");
    let mut _rx_2 = Rx::new(&link).expect("rx-2");
}

#[test]
#[should_panic]
fn t_09() {
    let link = Link::<Value>::new();
    let mut _tx_1 = Tx::new(&link).expect("tx-1");
    let mut _tx_2 = Tx::new(&link).expect("tx-2");
}

#[test]
fn spsc_direct_t_10() {
    let counter = Counter::new();
    {
        let link = Link::<Value>::new();
        let mut tx = Tx::new(&link).expect("tx");
        let mut rx = Rx::new(&link).expect("rx");

        tx.close().expect("fault");
        assert!(rx.recv_nowait().expect("fault").expect_err("rx.recv_nowait").is_closed());
    }
    assert_eq!(counter.count(), 0);
}

#[test]
fn spsc_direct_t_11() {
    let counter = Counter::new();
    {
        let link = Link::<Value>::new();
        let mut tx = Tx::new(&link).expect("tx");
        let mut rx = Rx::new(&link).expect("rx");

        tx.send_nowait(counter.add(1)).expect("fault").expect("tx.send-nowait");
        tx.close().expect("fault");
        assert_eq!(rx.recv_nowait().expect("fault").expect("rx.recv-nowait").unwrap(), 1);
        assert!(rx.recv_nowait().expect("fault").expect_err("rx.recv-nowait").is_closed());
    }
    assert_eq!(counter.count(), 0);
}

#[test]
fn t_12() {
    let counter = Counter::new();
    {
        let link = Link::<Value>::new();
        let mut tx = Tx::new(&link).expect("tx");
        let mut rx = Rx::new(&link).expect("rx");

        rx.close().expect("fault");
        assert!(tx.send_nowait(counter.add(1)).expect("fault").expect_err("tx.send-nowait").is_closed());
    }
    assert_eq!(counter.count(), 0);
}

#[test]
fn t_13() {
    let counter = Counter::new();
    {
        let link = Link::<Value>::new();
        let mut tx = Tx::new(&link).expect("tx");
        let mut rx = Rx::new(&link).expect("rx");

        tx.send_nowait(counter.add(1)).expect("fault").expect("tx.send-nowait");
        rx.close().expect("fault");
        assert!(tx.send_nowait(counter.add(2)).expect("fault").expect_err("tx.send-nowait").is_closed());
    }
    assert_eq!(counter.count(), 0);
}

#[test]
fn mono_t_01() {
    let counter = Counter::new();

    {
        let link = Link::<Value>::new();
        let mut rx = Rx::new(&link).expect("rx");
        let mut tx = Tx::new(&link).expect("tx");

        assert!(rx.recv_nowait().expect("fault").expect_err("rx.recv-nowait").is_empty());

        tx.send_nowait(counter.add(1)).expect("fault").expect("tx.send-nowait");
        assert!(tx.send_nowait(counter.add(2)).expect("fault").expect_err("tx.send-nowait").is_full());

        assert_eq!(rx.recv_nowait().expect("fault").expect("rx.recv-nowait").unwrap(), 1);
        assert!(rx.recv_nowait().expect("fault").expect_err("rx.recv-nowait").is_empty());

        tx.send_nowait(counter.add(3)).expect("fault").expect("tx.send-nowait");
        assert!(tx.send_nowait(counter.add(4)).expect("fault").expect_err("tx.send-nowait").is_full());

        assert_eq!(rx.recv_nowait().expect("fault").expect("rx.recv-nowait").unwrap(), 3);
    }

    assert_eq!(counter.count(), 0);
}

#[test]
fn mono_t_02() {
    let counter = Counter::new();

    {
        let link = Link::<Value>::new();
        let mut tx = Tx::new(&link).expect("tx");

        tx.send_nowait(counter.add(1)).expect("fault").expect("tx.send-nowait");
        assert!(tx.send_nowait(counter.add(2)).expect("fault").expect_err("tx.send-nowait").is_full());
    }

    assert_eq!(counter.count(), 0);
}

#[test]
fn mono_t_03() {
    let counter = Counter::new();

    {
        let link = Link::<Value>::new();
        let mut rx = Rx::new(&link).expect("rx");
        let mut tx = Tx::new(&link).expect("tx");

        assert!(rx.recv_nowait().expect("fault").expect_err("rx.recv-nowait").is_empty());

        tx.send_nowait(counter.add(1)).expect("fault").expect("tx.send-nowait");
        assert!(tx.send_nowait(counter.add(2)).expect("fault").expect_err("tx.send-nowait").is_full());

        tx.close().expect("fault");
        std::mem::drop(tx);
        assert_eq!(rx.recv_nowait().expect("fault").expect("rx.recv-nowait").unwrap(), 1);
        assert!(rx.recv_nowait().expect("fault").expect_err("rx.recv-nowait").is_closed());
    }

    assert_eq!(counter.count(), 0);
}

#[test]
fn mono_t_04() {
    let counter = Counter::new();

    {
        let link = Link::<Value>::new();
        let mut rx = Rx::new(&link).expect("rx");
        let mut tx = Tx::new(&link).expect("tx");

        assert!(rx.recv_nowait().expect("fault").expect_err("rx.recv-nowait").is_empty());
        rx.close().expect("fault");
        std::mem::drop(rx);
        assert!(tx.send_nowait(counter.add(1)).expect("fault").expect_err("tx.send-nowait").is_closed());
    }

    assert_eq!(counter.count(), 0);
}

#[test]
fn mono_t_05() {
    let counter = Counter::new();

    {
        let link = Link::<Value>::new();
        let mut rx = Rx::new(&link).expect("rx");
        let mut tx = Tx::new(&link).expect("tx");

        assert!(rx.recv_nowait().expect("fault").expect_err("rx.recv-nowait").is_empty());

        tx.send_nowait(counter.add(1)).expect("fault").expect("tx.send-nowait");
        assert!(tx.send_nowait(counter.add(2)).expect("fault").expect_err("tx.send-nowait").is_full());

        rx.close().expect("fault");
        std::mem::drop(rx);
        assert!(tx.send_nowait(counter.add(3)).expect("fault").expect_err("tx.send-nowait").is_closed());
    }

    assert_eq!(counter.count(), 0);
}

#[test]
fn rendezvous_closed_on_close_returns_the_value() {
    let link = Link::<String>::new();
    let mut rx = Rx::new(&link).expect("rx");
    let mut tx = Tx::new(&link).expect("tx");

    rx.close().expect("fault");
    let rejected = tx.send_nowait(String::from("X")).expect("fault").expect_err("closed");
    assert_eq!(rejected, airlock::error::SendErrorNoWait::Closed(String::from("X")));
}

#[test]
fn rendezvous_full_returns_the_value() {
    let link = Link::<String>::new();
    let mut tx = Tx::new(&link).expect("tx");

    tx.send_nowait(String::from("A")).expect("fault").expect("sent");
    let rejected = tx.send_nowait(String::from("B")).expect("fault").expect_err("full");
    assert_eq!(rejected, airlock::error::SendErrorNoWait::Full(String::from("B")));
}

#[test]
fn rendezvous_second_endpoint_is_a_fault() {
    let link = Link::<u8>::new();
    let _tx = Tx::new(&link).expect("tx");
    let _rx = Rx::new(&link).expect("rx");
    assert_eq!(Tx::new(&link).err(), Some(Fault::AlreadyAttached));
    assert_eq!(Rx::new(&link).err(), Some(Fault::AlreadyAttached));
}

#[test]
fn rendezvous_close_is_idempotent() {
    let link = Link::<u8>::new();
    let mut tx = Tx::new(&link).expect("tx");
    let mut rx = Rx::new(&link).expect("rx");
    tx.close().expect("fault");
    tx.close().expect("fault");
    rx.close().expect("fault");
    assert!(rx.recv_nowait().expect("fault").expect_err("closed").is_closed());
    assert!(rx.recv_nowait().expect("fault").expect_err("closed").is_closed());
    assert!(tx.send_nowait(1).expect("fault").expect_err("closed").is_closed());
}

#[test]
fn rendezvous_poll_send_keeps_the_value_while_pending() {
    let waker = noop_waker();
    let link = Link::<String>::new();
    let mut tx = Tx::new(&link).expect("tx");
    let mut rx = Rx::new(&link).expect("rx");

    let mut first = Some(String::from("first"));
    assert_eq!(tx.poll_send(&waker, &mut first), Ok(Polled::Ready(Ok(()))));
    assert_eq!(first, None);

    let mut second = Some(String::from("second"));
    assert_eq!(tx.poll_send(&waker, &mut second), Ok(Polled::Pending));
    assert_eq!(second, Some(String::from("second")));

    assert_eq!(rx.poll_recv(&waker), Ok(Polled::Ready(Ok(String::from("first")))));
    assert_eq!(rx.poll_recv(&waker), Ok(Polled::Pending));

    assert_eq!(tx.poll_send(&waker, &mut second), Ok(Polled::Ready(Ok(()))));
    assert_eq!(second, None);
    tx.close().expect("fault");

    assert_eq!(rx.poll_recv(&waker), Ok(Polled::Ready(Ok(String::from("second")))));
    assert_eq!(rx.poll_recv(&waker), Ok(Polled::Ready(Err(RecvError::Closed))));

    let mut third = Some(String::from("third"));
    assert_eq!(
        tx.poll_send(&waker, &mut third),
        Ok(Polled::Ready(Err(SendError::Closed(String::from("third")))))
    );
    assert_eq!(third, None);
}

#[test]
fn rendezvous_reclaim_destroys_what_is_left() {
    let counter = Counter::new();
    let mut link = Link::<Value>::new();
    {
        let mut tx = Tx::new(&link).expect("tx");
        tx.send_nowait(counter.add(7)).expect("fault").expect("sent");
        tx.close().expect("fault");
    }
    assert_eq!(counter.count(), 1);
    assert_eq!(link.reclaim(), Ok(1));
    assert_eq!(counter.count(), 0);
    assert_eq!(link.reclaim(), Err(Fault::Corrupted));
}

#[test]
fn rendezvous_reclaim_refuses_an_open_link_in_use() {
    let mut link = Link::<u8>::new();
    assert_eq!(link.reclaim(), Ok(0));
    {
        let _tx = Tx::new(&link).expect("tx");
    }
    assert_eq!(link.reclaim(), Err(Fault::StillAttached));
}
