use std::future::Future;
use std::pin::Pin;
use std::task::{Context, Poll, Waker};
use test_queue::protocol::{RecvState, Step};
use test_queue::queue::{after_pop, raise_due, Queue, Receiver, Sender};

/// The receiver's loop: look, and wait on the signal whenever nothing is there.
async fn recv<T, const N: usize>(rx: &mut Receiver<T, N>) -> T {
    loop {
        match rx.poll() {
            Step::Deliver(item) => return item,
            Step::Suspend => {
                rx.wakeup().notified().await;
                rx.wake();
            }
        }
    }
}

fn run<F: Future>(future: F) -> F::Output {
    tokio::runtime::Builder::new_current_thread()
        .build()
        .unwrap()
        .block_on(future)
}

fn poll_once<F: Future + ?Sized>(future: &mut Pin<Box<F>>) -> Poll<F::Output> {
    let mut cx = Context::from_waker(Waker::noop());
    future.as_mut().poll(&mut cx)
}

fn deliver<T>(step: Step<T>) -> Option<T> {
    match step {
        Step::Deliver(item) => Some(item),
        Step::Suspend => None,
    }
}

/// Takes the permit that earlier sends may have left on the signal.
fn drain_permit<T, const N: usize>(rx: &mut Receiver<T, N>) {
    let mut wait = Box::pin(rx.wakeup().notified());
    let _ = poll_once(&mut wait);
}

#[test]
fn four_slots_fill_refuse_and_drain_in_order() {
    let (mut tx, mut rx) = Queue::<u64, 4>::new();
    assert_eq!(tx.send(1), Ok(()));
    assert_eq!(tx.send(2), Ok(()));
    assert_eq!(tx.send(3), Ok(()));
    assert_eq!(tx.send(4), Ok(()));
    assert_eq!(tx.send(5), Err(5));
    run(async {
        assert_eq!(recv(&mut rx).await, 1);
        assert_eq!(recv(&mut rx).await, 2);
        assert_eq!(recv(&mut rx).await, 3);
        assert_eq!(recv(&mut rx).await, 4);
    });
    {
        let mut fifth: Pin<Box<dyn Future<Output = u64> + '_>> = Box::pin(recv(&mut rx));
        // The permits of the four sends have collapsed into one: the first
        // wait returns at once, the look after it finds nothing.
        assert!(poll_once(&mut fifth).is_pending());
        assert!(poll_once(&mut fifth).is_pending());
        assert_eq!(tx.send(6), Ok(()));
        assert_eq!(poll_once(&mut fifth), Poll::Ready(6));
    }
    assert_eq!(rx.current_state(), RecvState::Polling);
}

#[test]
fn send_beyond_capacity_hands_the_item_back() {
    let (mut tx, _rx) = Queue::<String, 2>::new();
    assert_eq!(tx.send(String::from("a")), Ok(()));
    assert_eq!(tx.send(String::from("b")), Ok(()));
    assert_eq!(tx.send(String::from("c")), Err(String::from("c")));
    assert_eq!(tx.send(String::from("d")), Err(String::from("d")));
}

#[test]
fn single_slot_refuses_the_second_send() {
    let (mut tx, mut rx) = Queue::<u8, 1>::new();
    assert_eq!(tx.send(7), Ok(()));
    assert_eq!(tx.send(8), Err(8));
    assert_eq!(rx.try_recv(), Some(7));
    assert_eq!(tx.send(8), Ok(()));
    assert_eq!(tx.send(9), Err(9));
    assert_eq!(rx.try_recv(), Some(8));
    assert_eq!(rx.try_recv(), None);
}

#[test]
fn refused_send_leaves_the_storage_as_it_was() {
    let (mut tx, mut rx) = Queue::<u32, 3>::new();
    for item in [10, 20, 30] {
        assert_eq!(tx.send(item), Ok(()));
    }
    assert_eq!(tx.send(40), Err(40));
    assert_eq!(rx.try_recv(), Some(10));
    assert_eq!(rx.try_recv(), Some(20));
    assert_eq!(rx.try_recv(), Some(30));
    assert_eq!(rx.try_recv(), None);
}

#[test]
fn interleaved_sends_and_receives_keep_order() {
    let (mut tx, mut rx) = Queue::<u64, 3>::new();
    let mut received = Vec::new();
    assert_eq!(tx.send(1), Ok(()));
    assert_eq!(tx.send(2), Ok(()));
    received.push(rx.try_recv().unwrap());
    assert_eq!(tx.send(3), Ok(()));
    assert_eq!(tx.send(4), Ok(()));
    assert_eq!(tx.send(5), Err(5));
    received.push(rx.try_recv().unwrap());
    received.push(rx.try_recv().unwrap());
    assert_eq!(tx.send(5), Ok(()));
    received.push(rx.try_recv().unwrap());
    received.push(rx.try_recv().unwrap());
    assert_eq!(rx.try_recv(), None);
    assert_eq!(received, vec![1, 2, 3, 4, 5]);
}

#[test]
fn order_survives_many_laps_of_the_ring() {
    let (mut tx, mut rx) = Queue::<usize, 3>::new();
    let mut next = 0;
    for lap in 0..50 {
        let burst = 1 + lap % 3;
        for offset in 0..burst {
            assert_eq!(tx.send(lap * 10 + offset), Ok(()));
        }
        for offset in 0..burst {
            assert_eq!(rx.try_recv(), Some(lap * 10 + offset));
            next += 1;
        }
        assert_eq!(rx.try_recv(), None);
    }
    assert_eq!(next, 99);
}

#[test]
fn every_item_is_delivered_once() {
    let (mut tx, mut rx) = Queue::<&str, 4>::new();
    assert_eq!(tx.send("x"), Ok(()));
    assert_eq!(tx.send("x"), Ok(()));
    assert_eq!(tx.send("y"), Ok(()));
    assert_eq!(rx.try_recv(), Some("x"));
    assert_eq!(rx.try_recv(), Some("x"));
    assert_eq!(rx.try_recv(), Some("y"));
    assert_eq!(rx.try_recv(), None);
    assert_eq!(rx.try_recv(), None);
}

#[test]
fn round_trip_does_not_suspend() {
    let (mut tx, mut rx) = Queue::<i64, 8>::new();
    assert_eq!(tx.send(-42), Ok(()));
    assert_eq!(deliver(rx.poll()), Some(-42));
    assert_eq!(rx.current_state(), RecvState::Polling);
    assert_eq!(tx.send(43), Ok(()));
    let mut call: Pin<Box<dyn Future<Output = i64> + '_>> = Box::pin(recv(&mut rx));
    assert_eq!(poll_once(&mut call), Poll::Ready(43));
}

#[test]
fn send_between_empty_look_and_wait_is_not_missed() {
    let (mut tx, mut rx) = Queue::<u16, 2>::new();
    // The receiver looks, finds nothing and is about to wait.
    assert_eq!(deliver(rx.poll()), None);
    assert_eq!(rx.current_state(), RecvState::Suspended);
    // The send lands in that window.
    assert_eq!(tx.send(11), Ok(()));
    // The wait that starts afterwards finds the permit and returns at once.
    {
        let mut wait = Box::pin(rx.wakeup().notified());
        assert!(poll_once(&mut wait).is_ready());
    }
    rx.wake();
    assert_eq!(rx.current_state(), RecvState::Polling);
    assert_eq!(deliver(rx.poll()), Some(11));
}

#[test]
fn send_wakes_a_receiver_that_already_waits() {
    let (mut tx, mut rx) = Queue::<u16, 2>::new();
    let mut call: Pin<Box<dyn Future<Output = u16> + '_>> = Box::pin(recv(&mut rx));
    assert!(poll_once(&mut call).is_pending());
    assert!(poll_once(&mut call).is_pending());
    assert_eq!(tx.send(5), Ok(()));
    assert_eq!(poll_once(&mut call), Poll::Ready(5));
}

#[test]
fn refused_send_raises_no_signal() {
    let (mut tx, mut rx) = Queue::<u8, 1>::new();
    assert_eq!(tx.send(1), Ok(()));
    drain_permit(&mut rx);
    assert_eq!(tx.send(2), Err(2));
    let mut wait = Box::pin(rx.wakeup().notified());
    assert!(poll_once(&mut wait).is_pending());
}

#[test]
fn many_raises_leave_one_permit() {
    let (mut tx, mut rx) = Queue::<u8, 4>::new();
    assert_eq!(tx.send(1), Ok(()));
    assert_eq!(tx.send(2), Ok(()));
    assert_eq!(tx.send(3), Ok(()));
    {
        let mut first = Box::pin(rx.wakeup().notified());
        assert!(poll_once(&mut first).is_ready());
    }
    {
        let mut second = Box::pin(rx.wakeup().notified());
        assert!(poll_once(&mut second).is_pending());
    }
    // One wakeup is enough: the loop drains whatever is there.
    assert_eq!(rx.try_recv(), Some(1));
    assert_eq!(rx.try_recv(), Some(2));
    assert_eq!(rx.try_recv(), Some(3));
}

#[test]
fn abandoned_wait_loses_nothing() {
    let (mut tx, mut rx) = Queue::<u32, 2>::new();
    {
        let mut call: Pin<Box<dyn Future<Output = u32> + '_>> = Box::pin(recv(&mut rx));
        assert!(poll_once(&mut call).is_pending());
    }
    assert_eq!(rx.current_state(), RecvState::Suspended);
    assert_eq!(tx.send(77), Ok(()));
    assert_eq!(tx.send(78), Ok(()));
    run(async {
        assert_eq!(recv(&mut rx).await, 77);
        assert_eq!(recv(&mut rx).await, 78);
    });
    assert_eq!(rx.current_state(), RecvState::Polling);
}

#[test]
fn try_recv_keeps_the_state() {
    let (mut tx, mut rx) = Queue::<u8, 2>::new();
    assert_eq!(rx.current_state(), RecvState::Polling);
    assert_eq!(rx.try_recv(), None);
    assert_eq!(rx.current_state(), RecvState::Polling);
    assert_eq!(deliver(rx.poll()), None);
    assert_eq!(rx.current_state(), RecvState::Suspended);
    assert_eq!(tx.send(3), Ok(()));
    assert_eq!(rx.try_recv(), Some(3));
    assert_eq!(rx.current_state(), RecvState::Suspended);
    rx.wake();
    assert_eq!(rx.current_state(), RecvState::Polling);
}

#[test]
fn wake_while_polling_is_harmless() {
    let (_tx, mut rx) = Queue::<u8, 2>::new();
    rx.wake();
    assert_eq!(rx.current_state(), RecvState::Polling);
    assert_eq!(rx.try_recv(), None);
}

#[test]
fn after_pop_delivers_or_suspends() {
    let (state, step) = after_pop(Some(9u8));
    assert_eq!(state, RecvState::Polling);
    assert_eq!(deliver(step), Some(9));
    let (state, step) = after_pop::<u8>(None);
    assert_eq!(state, RecvState::Suspended);
    assert_eq!(deliver(step), None);
}

#[test]
fn raise_is_due_for_placed_items_only() {
    assert!(raise_due::<u8>(&Ok(())));
    assert!(!raise_due(&Err(3u8)));
}

async fn produce<const N: usize>(mut tx: Sender<u32, N>, count: u32) {
    for item in 0..count {
        let mut offer = item;
        while let Err(back) = tx.send(offer) {
            offer = back;
            tokio::task::yield_now().await;
        }
    }
}

#[test]
fn producer_and_consumer_tasks_keep_order() {
    let (tx, mut rx) = Queue::<u32, 4>::new();
    run(async move {
        let producer = tokio::spawn(produce(tx, 500));
        for expected in 0..500 {
            assert_eq!(recv(&mut rx).await, expected);
        }
        producer.await.unwrap();
        assert_eq!(rx.try_recv(), None);
    });
}

#[test]
fn consumer_task_started_first_sees_every_item() {
    let (mut tx, mut rx) = Queue::<u32, 2>::new();
    run(async move {
        let consumer = tokio::spawn(async move {
            let mut seen = Vec::new();
            for _ in 0..6 {
                seen.push(recv(&mut rx).await);
            }
            seen
        });
        tokio::task::yield_now().await;
        for item in 0..6 {
            let mut offer = item;
            while let Err(back) = tx.send(offer) {
                offer = back;
                tokio::task::yield_now().await;
            }
        }
        assert_eq!(consumer.await.unwrap(), vec![0, 1, 2, 3, 4, 5]);
    });
}

/// A small linear congruential generator: delays that differ from run to run
/// of the loop, the same on every run of the test.
fn next_delay(seed: &mut u64) -> u64 {
    *seed = seed.wrapping_mul(6364136223846793005).wrapping_add(1442695040888963407);
    (*seed >> 60) & 7
}

fn dawdle(rounds: u64) {
    for _ in 0..rounds {
        std::hint::spin_loop();
    }
}

#[test]
fn producer_on_another_thread_never_strands_the_consumer() {
    const COUNT: u32 = 20_000;
    let (mut tx, mut rx) = Queue::<u32, 4>::new();
    run(async move {
        let producer = tokio::task::spawn_blocking(move || {
            let mut seed = 7;
            for item in 0..COUNT {
                let mut offer = item;
                while let Err(back) = tx.send(offer) {
                    offer = back;
                    std::hint::spin_loop();
                }
                dawdle(next_delay(&mut seed) * 16);
            }
        });
        let mut seed = 11;
        for expected in 0..COUNT {
            assert_eq!(recv(&mut rx).await, expected);
            dawdle(next_delay(&mut seed) * 16);
        }
        producer.await.unwrap();
        assert_eq!(rx.try_recv(), None);
    });
}
