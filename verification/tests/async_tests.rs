use learning_rust::futures::{CountdownFuture, DelayFuture, DelayStep, PollStep, ReadyFuture, ThirdPollFuture};
use learning_rust::kv_service::{KvCommand, KvReply, KvServer};
use learning_rust::streams::{
    countdown_message, countdown_messages, fibonacci_values, page_items, total_pages, CounterStream,
    FibonacciGenerator, IntervalStream,
};

#[test]
fn ready_future_hands_out_value_once() {
    let mut f = ReadyFuture::new(42);
    assert_eq!(f.poll_ready(), 42);
}

#[test]
fn delay_future_decides_by_elapsed_time() {
    let mut f = DelayFuture::new(200_000_000);
    match f.poll_step(50_000_000) {
        DelayStep::Pending { remaining_nanos } => assert_eq!(remaining_nanos, 150_000_000),
        DelayStep::Ready => panic!("too early"),
    }
    assert!(matches!(f.poll_step(200_000_000), DelayStep::Ready));
    assert_eq!(f.poll_count, 2);
}

#[test]
fn countdown_future_completes_after_count_polls() {
    let mut f = CountdownFuture { count: 3 };
    let mut pending = 0;
    loop {
        match f.poll_step() {
            PollStep::Pending => pending += 1,
            PollStep::Ready(s) => {
                assert_eq!(s, "倒计时完成！");
                break;
            }
        }
    }
    assert_eq!(pending, 3);
}

#[test]
fn third_poll_future() {
    let mut f = ThirdPollFuture { count: 0 };
    assert!(matches!(f.poll_step(), PollStep::Pending));
    assert!(matches!(f.poll_step(), PollStep::Pending));
    match f.poll_step() {
        PollStep::Ready(s) => assert_eq!(s, "经过 3 次 poll 完成"),
        PollStep::Pending => panic!("should be ready"),
    }
}

#[test]
fn counter_and_interval_streams() {
    let mut c = CounterStream::new(3);
    let mut values = Vec::new();
    while let Some(v) = c.poll_next() {
        values.push(v);
    }
    assert_eq!(values, vec![1, 2, 3]);
    assert_eq!(c.poll_next(), None);

    let mut i = IntervalStream::new(80, 2);
    let first = i.step();
    assert_eq!((first.value, first.pause_next), (Some(1), true));
    let second = i.step();
    assert_eq!((second.value, second.pause_next), (Some(2), false));
    let end = i.step();
    assert_eq!((end.value, end.pause_next), (None, false));
}

#[test]
fn fibonacci_generator_values() {
    assert_eq!(fibonacci_values(10), vec![0, 1, 1, 2, 3, 5, 8, 13, 21, 34]);
    assert!(fibonacci_values(0).is_empty());
    let mut g = FibonacciGenerator::new();
    g.advance();
    g.advance();
    assert_eq!(g.current(), 1);
}

#[test]
fn countdown_and_pages() {
    assert_eq!(countdown_message(0), "🚀 发射！");
    assert_eq!(countdown_message(5), "倒计时: 5");
    assert_eq!(countdown_messages(2), vec!["倒计时: 2", "倒计时: 1", "🚀 发射！"]);
    assert_eq!(total_pages(7, 3), 3);
    assert_eq!(total_pages(6, 3), 2);
    assert_eq!(total_pages(0, 3), 0);
    assert_eq!(page_items(0, 3, 7), vec!["item_0", "item_1", "item_2"]);
    assert_eq!(page_items(2, 3, 7), vec!["item_6"]);
    assert!(page_items(5, 3, 7).is_empty());
}

#[test]
fn key_value_service() {
    let mut s = KvServer::new();
    assert!(matches!(
        s.handle(KvCommand::Put { key: "name".to_string(), value: "Rust".to_string() }),
        KvReply::Stored(true)
    ));
    match s.handle(KvCommand::Get { key: "name".to_string() }) {
        KvReply::Value(v) => assert_eq!(v.as_deref(), Some("Rust")),
        KvReply::Stored(_) => panic!("wrong reply"),
    }
    match s.handle(KvCommand::Get { key: "version".to_string() }) {
        KvReply::Value(v) => assert!(v.is_none()),
        KvReply::Stored(_) => panic!("wrong reply"),
    }
}
