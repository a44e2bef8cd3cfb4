use futures::stream;
use futures::task::noop_waker;
use futures::Stream;
use request_layer::{
    AdapterPhase, DomainError, ExecError, FutureMapStream, FutureResultMarker,
    FutureResultStreamMarker, FutureSerializeFuture, FutureSerializeMarker,
    FutureSerializeResultFuture, FutureStreamMarker, MapStream, Outcome, Polled,
    ResultStreamMarker, SealedRequestLayer, Serialized, Step, StreamMarker,
};
use serde::ser::Error as _;
use serde_json::Value;
use std::cell::Cell;
use std::future::Future;
use std::pin::Pin;
use std::rc::Rc;
use std::task::{Context, Poll};

type BoxFuture<T> = Pin<Box<dyn Future<Output = T>>>;
type BoxStream<T> = Pin<Box<dyn Stream<Item = T>>>;

/// An item of a stream: a number, or something that has no wire format.
enum Item {
    Number(i64),
    NoWireFormat,
}

impl serde::Serialize for Item {
    fn serialize<S: serde::Serializer>(&self, serializer: S) -> Result<S::Ok, S::Error> {
        match self {
            Item::Number(n) => serializer.serialize_i64(*n),
            Item::NoWireFormat => Err(S::Error::custom("no wire format")),
        }
    }
}

/// Counts how often something was polled and whether it was dropped.
#[derive(Clone, Default)]
struct Probe {
    polls: Rc<Cell<usize>>,
    dropped: Rc<Cell<bool>>,
}

/// A stream that hands out a script, one entry at each poll, and keeps count.
struct Scripted<T> {
    script: Vec<Poll<Option<T>>>,
    probe: Probe,
}

impl<T> Scripted<T> {
    fn boxed(mut script: Vec<Poll<Option<T>>>, probe: &Probe) -> BoxStream<T>
    where
        T: 'static,
    {
        script.reverse();
        Box::pin(Scripted { script, probe: probe.clone() })
    }
}

impl<T> Unpin for Scripted<T> {}

impl<T> Stream for Scripted<T> {
    type Item = T;

    fn poll_next(self: Pin<&mut Self>, _cx: &mut Context<'_>) -> Poll<Option<T>> {
        let this = self.get_mut();
        this.probe.polls.set(this.probe.polls.get() + 1);
        this.script.pop().unwrap_or(Poll::Ready(None))
    }
}

impl<T> Drop for Scripted<T> {
    fn drop(&mut self) {
        self.probe.dropped.set(true);
    }
}

/// A future that is pending for some polls and then resolves, and keeps count.
struct Delayed<T> {
    pending: usize,
    value: Option<T>,
    probe: Probe,
}

impl<T: 'static> Delayed<T> {
    fn boxed(pending: usize, value: T, probe: &Probe) -> BoxFuture<T> {
        Box::pin(Delayed { pending, value: Some(value), probe: probe.clone() })
    }
}

impl<T> Unpin for Delayed<T> {}

impl<T> Future for Delayed<T> {
    type Output = T;

    fn poll(self: Pin<&mut Self>, _cx: &mut Context<'_>) -> Poll<T> {
        let this = self.get_mut();
        this.probe.polls.set(this.probe.polls.get() + 1);
        if this.pending > 0 {
            this.pending -= 1;
            Poll::Pending
        } else {
            Poll::Ready(this.value.take().expect("polled after it had resolved"))
        }
    }
}

impl<T> Drop for Delayed<T> {
    fn drop(&mut self) {
        self.probe.dropped.set(true);
    }
}

fn polled<T>(poll: Poll<T>) -> Polled<T> {
    match poll {
        Poll::Ready(value) => Polled::Ready(value),
        Poll::Pending => Polled::Pending,
    }
}

fn polled_item<T: serde::Serialize>(poll: Poll<Option<T>>) -> Polled<Option<Serialized>> {
    polled(poll).map_item()
}

trait MapItem {
    fn map_item(self) -> Polled<Option<Serialized>>;
}

impl<T: serde::Serialize> MapItem for Polled<Option<T>> {
    fn map_item(self) -> Polled<Option<Serialized>> {
        match self {
            Polled::Ready(item) => Polled::Ready(item.map(serde_json::to_value)),
            Polled::Pending => Polled::Pending,
        }
    }
}

/// One pull on a stream adapter, as a driver makes it.
fn pull_stream<T: serde::Serialize>(
    adapter: &mut MapStream<BoxStream<T>>,
) -> Polled<Option<Outcome>> {
    let waker = noop_waker();
    let mut cx = Context::from_waker(&waker);
    match adapter.poll_next() {
        Step::Answer(answer) => answer,
        Step::PollStream => {
            let live = adapter.stream_mut().expect("a stream to poll");
            let gave = live.as_mut().poll_next(&mut cx);
            adapter.forward(polled_item(gave))
        }
        Step::PollFuture => panic!("a stream adapter holds no future"),
    }
}

/// One pull on a two-phase adapter whose future may fail.
fn pull_future_stream<T: serde::Serialize>(
    adapter: &mut FutureMapStream<BoxFuture<Result<BoxStream<T>, DomainError>>, BoxStream<T>>,
) -> Polled<Option<Outcome>> {
    let waker = noop_waker();
    let mut cx = Context::from_waker(&waker);
    let mut step = adapter.poll_next();
    if let Step::PollFuture = step {
        let future = adapter.future_mut().expect("a future to poll");
        let gave = future.as_mut().poll(&mut cx);
        step = adapter.resolved(polled(gave));
    }
    match step {
        Step::Answer(answer) => answer,
        Step::PollStream => {
            let live = adapter.stream_mut().expect("a stream to poll");
            let gave = live.as_mut().poll_next(&mut cx);
            adapter.forward(polled_item(gave))
        }
        Step::PollFuture => panic!("the future was polled in this pull"),
    }
}

/// One pull on a two-phase adapter whose future cannot fail.
fn pull_sure_future_stream<T: serde::Serialize>(
    adapter: &mut FutureMapStream<BoxFuture<BoxStream<T>>, BoxStream<T>>,
) -> Polled<Option<Outcome>> {
    let waker = noop_waker();
    let mut cx = Context::from_waker(&waker);
    let mut step = adapter.poll_next();
    if let Step::PollFuture = step {
        let future = adapter.future_mut().expect("a future to poll");
        let gave = future.as_mut().poll(&mut cx);
        step = adapter.resolved_stream(polled(gave));
    }
    match step {
        Step::Answer(answer) => answer,
        Step::PollStream => {
            let live = adapter.stream_mut().expect("a stream to poll");
            let gave = live.as_mut().poll_next(&mut cx);
            adapter.forward(polled_item(gave))
        }
        Step::PollFuture => panic!("the future was polled in this pull"),
    }
}

/// One pull on the adapter of a future of a value.
fn pull_value(adapter: &mut FutureSerializeFuture<BoxFuture<Serialized>>) -> Polled<Option<Outcome>> {
    let waker = noop_waker();
    let mut cx = Context::from_waker(&waker);
    match adapter.poll_next() {
        Step::Answer(answer) => answer,
        Step::PollFuture => {
            let future = adapter.future_mut().expect("a future to poll");
            let gave = future.as_mut().poll(&mut cx);
            adapter.poll(polled(gave))
        }
        Step::PollStream => panic!("this adapter holds no stream"),
    }
}

/// One pull on the adapter of a future of a fallible value.
fn pull_fallible_value(
    adapter: &mut FutureSerializeResultFuture<BoxFuture<Result<Serialized, DomainError>>>,
) -> Polled<Option<Outcome>> {
    let waker = noop_waker();
    let mut cx = Context::from_waker(&waker);
    match adapter.poll_next() {
        Step::Answer(answer) => answer,
        Step::PollFuture => {
            let future = adapter.future_mut().expect("a future to poll");
            let gave = future.as_mut().poll(&mut cx);
            adapter.poll(polled(gave))
        }
        Step::PollStream => panic!("this adapter holds no stream"),
    }
}

fn ready<T>(answer: Polled<T>) -> T {
    match answer {
        Polled::Ready(value) => value,
        Polled::Pending => panic!("nothing yet"),
    }
}

fn number(frame: Option<Outcome>) -> i64 {
    match frame {
        Some(Ok(value)) => value.as_i64().expect("a number"),
        other => panic!("unexpected frame: {:?}", other),
    }
}

fn access_denied() -> DomainError {
    DomainError { code: 403, message: String::from("access denied") }
}

fn numbers(values: Vec<i64>) -> BoxStream<Item> {
    Box::pin(stream::iter(values.into_iter().map(Item::Number)))
}

#[test]
fn stream_yields_each_item_in_order_then_ends() {
    let live: BoxStream<Item> = numbers(vec![10, 20, 30]);
    let mut adapter = SealedRequestLayer::<StreamMarker>::exec(live);
    assert_eq!(number(ready(pull_stream(&mut adapter))), 10);
    assert_eq!(number(ready(pull_stream(&mut adapter))), 20);
    assert_eq!(number(ready(pull_stream(&mut adapter))), 30);
    assert!(ready(pull_stream(&mut adapter)).is_none());
}

#[test]
fn empty_stream_ends_at_the_first_pull() {
    let mut adapter = MapStream::new(numbers(vec![]));
    assert!(ready(pull_stream(&mut adapter)).is_none());
    assert!(adapter.stream_mut().is_none());
}

#[test]
fn stream_is_polled_once_for_each_item_and_once_for_its_end() {
    let probe = Probe::default();
    let script = vec![
        Poll::Ready(Some(Item::Number(1))),
        Poll::Ready(Some(Item::Number(2))),
        Poll::Ready(None),
    ];
    let mut adapter = MapStream::new(Scripted::boxed(script, &probe));
    assert_eq!(probe.polls.get(), 0);
    assert_eq!(number(ready(pull_stream(&mut adapter))), 1);
    assert_eq!(probe.polls.get(), 1);
    assert_eq!(number(ready(pull_stream(&mut adapter))), 2);
    assert_eq!(probe.polls.get(), 2);
    assert!(ready(pull_stream(&mut adapter)).is_none());
    assert_eq!(probe.polls.get(), 3);
}

#[test]
fn ended_stream_is_released_and_never_polled_again() {
    let probe = Probe::default();
    let script = vec![Poll::Ready(Some(Item::Number(1))), Poll::Ready(None)];
    let mut adapter = MapStream::new(Scripted::boxed(script, &probe));
    assert_eq!(number(ready(pull_stream(&mut adapter))), 1);
    assert!(!probe.dropped.get());
    assert!(ready(pull_stream(&mut adapter)).is_none());
    assert!(probe.dropped.get());
    assert_eq!(probe.polls.get(), 2);
    for _ in 0..3 {
        assert!(ready(pull_stream(&mut adapter)).is_none());
    }
    assert_eq!(probe.polls.get(), 2);
}

#[test]
fn pending_stream_suspends_the_pull_and_keeps_the_stream() {
    let probe = Probe::default();
    let script = vec![
        Poll::Pending,
        Poll::Ready(Some(Item::Number(5))),
        Poll::Pending,
        Poll::Ready(None),
    ];
    let mut adapter = MapStream::new(Scripted::boxed(script, &probe));
    assert!(matches!(pull_stream(&mut adapter), Polled::Pending));
    assert!(!probe.dropped.get());
    assert_eq!(number(ready(pull_stream(&mut adapter))), 5);
    assert!(matches!(pull_stream(&mut adapter), Polled::Pending));
    assert!(ready(pull_stream(&mut adapter)).is_none());
    assert_eq!(probe.polls.get(), 4);
}

#[test]
fn third_item_without_wire_format_ends_the_sequence() {
    let probe = Probe::default();
    let script = vec![
        Poll::Ready(Some(Item::Number(1))),
        Poll::Ready(Some(Item::Number(2))),
        Poll::Ready(Some(Item::NoWireFormat)),
        Poll::Ready(Some(Item::Number(4))),
        Poll::Ready(None),
    ];
    let mut adapter = MapStream::new(Scripted::boxed(script, &probe));
    assert_eq!(number(ready(pull_stream(&mut adapter))), 1);
    assert_eq!(number(ready(pull_stream(&mut adapter))), 2);
    match ready(pull_stream(&mut adapter)) {
        Some(Err(ExecError::SerializingResultErr(cause))) => {
            assert_eq!(cause.to_string(), "no wire format")
        }
        other => panic!("unexpected frame: {:?}", other),
    }
    assert_eq!(probe.polls.get(), 3);
    assert!(probe.dropped.get());
    assert!(ready(pull_stream(&mut adapter)).is_none());
    assert!(ready(pull_stream(&mut adapter)).is_none());
    assert_eq!(probe.polls.get(), 3);
}

#[test]
fn failed_stream_yields_exactly_the_resolver_error() {
    let returned: Result<BoxStream<Item>, DomainError> = Err(access_denied());
    let mut adapter = SealedRequestLayer::<ResultStreamMarker>::exec(returned);
    assert_eq!(adapter.size_hint(|live| live.size_hint()), (0, Some(0)));
    assert!(adapter.stream_mut().is_none());
    match ready(pull_stream(&mut adapter)) {
        Some(Err(ExecError::ErrResolverError(error))) => assert_eq!(error, access_denied()),
        other => panic!("unexpected frame: {:?}", other),
    }
    assert!(ready(pull_stream(&mut adapter)).is_none());
    assert!(ready(pull_stream(&mut adapter)).is_none());
    assert!(adapter.stream_mut().is_none());
}

#[test]
fn fallible_stream_that_is_a_stream_streams() {
    let probe = Probe::default();
    let script = vec![Poll::Ready(Some(Item::Number(8)))];
    let returned: Result<BoxStream<Item>, DomainError> = Ok(Scripted::boxed(script, &probe));
    let mut adapter = SealedRequestLayer::<ResultStreamMarker>::exec(returned);
    assert_eq!(probe.polls.get(), 0);
    assert_eq!(adapter.size_hint(|live| live.size_hint()), (0, None));
    assert_eq!(number(ready(pull_stream(&mut adapter))), 8);
    assert!(ready(pull_stream(&mut adapter)).is_none());
    assert_eq!(adapter.size_hint(|live| live.size_hint()), (0, Some(0)));
}

#[test]
fn stream_adapter_dropped_mid_sequence_polls_no_more() {
    for pulls in 0..3usize {
        let probe = Probe::default();
        let script = vec![
            Poll::Ready(Some(Item::Number(1))),
            Poll::Ready(Some(Item::Number(2))),
            Poll::Ready(Some(Item::Number(3))),
        ];
        let mut adapter = MapStream::new(Scripted::boxed(script, &probe));
        for _ in 0..pulls {
            assert!(ready(pull_stream(&mut adapter)).is_some());
        }
        assert!(!probe.dropped.get());
        drop(adapter);
        assert!(probe.dropped.get());
        assert_eq!(probe.polls.get(), pulls);
    }
}

#[test]
fn future_stream_yields_the_items_of_its_stream() {
    let future_probe = Probe::default();
    let live: BoxStream<Item> = numbers(vec![7, 9]);
    let future = Delayed::boxed(0, Ok(live), &future_probe);
    let mut adapter = SealedRequestLayer::<FutureResultStreamMarker>::exec(future);
    assert_eq!(adapter.phase(), AdapterPhase::AwaitingFuture);
    assert_eq!(adapter.size_hint(|live| live.size_hint()), (0, None));
    assert_eq!(future_probe.polls.get(), 0);
    assert_eq!(number(ready(pull_future_stream(&mut adapter))), 7);
    assert_eq!(adapter.phase(), AdapterPhase::Streaming);
    assert_eq!(adapter.size_hint(|live| live.size_hint()), (1, Some(1)));
    assert!(future_probe.dropped.get());
    assert_eq!(number(ready(pull_future_stream(&mut adapter))), 9);
    assert!(ready(pull_future_stream(&mut adapter)).is_none());
    assert_eq!(adapter.phase(), AdapterPhase::Exhausted);
    assert_eq!(adapter.size_hint(|live| live.size_hint()), (0, Some(0)));
    assert!(ready(pull_future_stream(&mut adapter)).is_none());
    assert_eq!(future_probe.polls.get(), 1);
}

#[test]
fn future_that_fails_yields_exactly_the_resolver_error() {
    let future_probe = Probe::default();
    let returned: Result<BoxStream<Item>, DomainError> = Err(access_denied());
    let future = Delayed::boxed(0, returned, &future_probe);
    let mut adapter = SealedRequestLayer::<FutureResultStreamMarker>::exec(future);
    match ready(pull_future_stream(&mut adapter)) {
        Some(Err(ExecError::ErrResolverError(error))) => {
            assert_eq!(error.code, 403);
            assert_eq!(error.message, "access denied");
        }
        other => panic!("unexpected frame: {:?}", other),
    }
    assert_eq!(adapter.phase(), AdapterPhase::Exhausted);
    assert!(future_probe.dropped.get());
    assert!(adapter.stream_mut().is_none());
    assert!(ready(pull_future_stream(&mut adapter)).is_none());
    assert!(ready(pull_future_stream(&mut adapter)).is_none());
    assert_eq!(future_probe.polls.get(), 1);
}

#[test]
fn pending_future_suspends_and_no_stream_is_polled_before_it_resolves() {
    let future_probe = Probe::default();
    let stream_probe = Probe::default();
    let script = vec![Poll::Ready(Some(Item::Number(3))), Poll::Ready(None)];
    let live = Scripted::boxed(script, &stream_probe);
    let future = Delayed::boxed(2, Ok(live), &future_probe);
    let mut adapter = FutureMapStream::new(future);
    assert!(matches!(pull_future_stream(&mut adapter), Polled::Pending));
    assert!(matches!(pull_future_stream(&mut adapter), Polled::Pending));
    assert_eq!(adapter.phase(), AdapterPhase::AwaitingFuture);
    assert_eq!(stream_probe.polls.get(), 0);
    assert!(!future_probe.dropped.get());
    assert_eq!(number(ready(pull_future_stream(&mut adapter))), 3);
    assert_eq!(future_probe.polls.get(), 3);
    assert_eq!(stream_probe.polls.get(), 1);
    assert!(ready(pull_future_stream(&mut adapter)).is_none());
    assert!(stream_probe.dropped.get());
}

#[test]
fn future_of_an_empty_stream_ends_at_the_first_pull() {
    let probe = Probe::default();
    let live: BoxStream<Item> = numbers(vec![]);
    let future = Delayed::boxed(0, Ok(live), &probe);
    let mut adapter = FutureMapStream::new(future);
    assert!(ready(pull_future_stream(&mut adapter)).is_none());
    assert_eq!(adapter.phase(), AdapterPhase::Exhausted);
}

#[test]
fn future_of_a_stream_that_cannot_fail_streams() {
    let probe = Probe::default();
    let live: BoxStream<Item> = numbers(vec![1, 2]);
    let future = Delayed::boxed(1, live, &probe);
    let mut adapter = SealedRequestLayer::<FutureStreamMarker>::exec(future);
    assert!(matches!(pull_sure_future_stream(&mut adapter), Polled::Pending));
    assert_eq!(number(ready(pull_sure_future_stream(&mut adapter))), 1);
    assert_eq!(number(ready(pull_sure_future_stream(&mut adapter))), 2);
    assert!(ready(pull_sure_future_stream(&mut adapter)).is_none());
    assert_eq!(probe.polls.get(), 2);
}

#[test]
fn future_stream_stops_at_an_item_without_wire_format() {
    let future_probe = Probe::default();
    let stream_probe = Probe::default();
    let script = vec![
        Poll::Ready(Some(Item::Number(1))),
        Poll::Ready(Some(Item::NoWireFormat)),
        Poll::Ready(Some(Item::Number(3))),
    ];
    let live = Scripted::boxed(script, &stream_probe);
    let mut adapter = FutureMapStream::new(Delayed::boxed(0, Ok(live), &future_probe));
    assert_eq!(number(ready(pull_future_stream(&mut adapter))), 1);
    assert!(matches!(
        ready(pull_future_stream(&mut adapter)),
        Some(Err(ExecError::SerializingResultErr(_)))
    ));
    assert!(stream_probe.dropped.get());
    assert!(ready(pull_future_stream(&mut adapter)).is_none());
    assert_eq!(stream_probe.polls.get(), 2);
}

#[test]
fn primed_two_phase_adapter_yields_its_error_and_ends() {
    let mut adapter: FutureMapStream<
        BoxFuture<Result<BoxStream<Item>, DomainError>>,
        BoxStream<Item>,
    > = FutureMapStream::failed(access_denied());
    assert_eq!(adapter.phase(), AdapterPhase::AwaitingFuture);
    assert!(adapter.future_mut().is_none());
    assert_eq!(adapter.size_hint(|live| live.size_hint()), (0, Some(0)));
    match ready(pull_future_stream(&mut adapter)) {
        Some(Err(ExecError::ErrResolverError(error))) => assert_eq!(error, access_denied()),
        other => panic!("unexpected frame: {:?}", other),
    }
    assert_eq!(adapter.phase(), AdapterPhase::Exhausted);
    assert!(ready(pull_future_stream(&mut adapter)).is_none());
}

#[test]
fn two_phase_adapter_dropped_mid_sequence_polls_no_more() {
    let future_probe = Probe::default();
    let stream_probe = Probe::default();
    let script = vec![Poll::Ready(Some(Item::Number(1))), Poll::Ready(Some(Item::Number(2)))];
    let live = Scripted::boxed(script, &stream_probe);
    let mut adapter = FutureMapStream::new(Delayed::boxed(1, Ok(live), &future_probe));
    assert!(matches!(pull_future_stream(&mut adapter), Polled::Pending));
    drop(adapter);
    assert!(future_probe.dropped.get());
    assert_eq!(future_probe.polls.get(), 1);
    assert_eq!(stream_probe.polls.get(), 0);

    let future_probe = Probe::default();
    let stream_probe = Probe::default();
    let script = vec![Poll::Ready(Some(Item::Number(1))), Poll::Ready(Some(Item::Number(2)))];
    let live = Scripted::boxed(script, &stream_probe);
    let mut adapter = FutureMapStream::new(Delayed::boxed(0, Ok(live), &future_probe));
    assert_eq!(number(ready(pull_future_stream(&mut adapter))), 1);
    drop(adapter);
    assert!(stream_probe.dropped.get());
    assert_eq!(future_probe.polls.get(), 1);
    assert_eq!(stream_probe.polls.get(), 1);
}

#[test]
fn future_value_yields_one_frame_when_it_resolves() {
    let probe = Probe::default();
    let future = Delayed::boxed(1, serde_json::to_value("done"), &probe);
    let mut adapter = SealedRequestLayer::<FutureSerializeMarker>::exec(future);
    assert!(matches!(pull_value(&mut adapter), Polled::Pending));
    assert!(!probe.dropped.get());
    match ready(pull_value(&mut adapter)) {
        Some(Ok(value)) => assert_eq!(value, Value::from("done")),
        other => panic!("unexpected frame: {:?}", other),
    }
    assert!(probe.dropped.get());
    assert!(adapter.future_mut().is_none());
    assert!(ready(pull_value(&mut adapter)).is_none());
    assert!(ready(pull_value(&mut adapter)).is_none());
    assert_eq!(probe.polls.get(), 2);
}

#[test]
fn future_value_without_wire_format_yields_the_serializing_error() {
    let probe = Probe::default();
    let future = Delayed::boxed(0, serde_json::to_value(Item::NoWireFormat), &probe);
    let mut adapter = FutureSerializeFuture::new(future);
    assert!(matches!(
        ready(pull_value(&mut adapter)),
        Some(Err(ExecError::SerializingResultErr(_)))
    ));
    assert!(ready(pull_value(&mut adapter)).is_none());
}

#[test]
fn future_fallible_value_yields_the_resolver_error() {
    let probe = Probe::default();
    let returned: Result<Serialized, DomainError> = Err(access_denied());
    let future = Delayed::boxed(0, returned, &probe);
    let mut adapter = SealedRequestLayer::<FutureResultMarker>::exec(future);
    match ready(pull_fallible_value(&mut adapter)) {
        Some(Err(ExecError::ErrResolverError(error))) => assert_eq!(error, access_denied()),
        other => panic!("unexpected frame: {:?}", other),
    }
    assert!(ready(pull_fallible_value(&mut adapter)).is_none());
    assert_eq!(probe.polls.get(), 1);
}

#[test]
fn future_fallible_value_yields_the_value() {
    let probe = Probe::default();
    let returned: Result<Serialized, DomainError> = Ok(serde_json::to_value(Item::Number(12)));
    let future = Delayed::boxed(0, returned, &probe);
    let mut adapter = FutureSerializeResultFuture::new(future);
    assert_eq!(number(ready(pull_fallible_value(&mut adapter))), 12);
    assert!(ready(pull_fallible_value(&mut adapter)).is_none());
}

#[test]
fn future_adapter_dropped_before_it_resolves_polls_no_more() {
    let probe = Probe::default();
    let future = Delayed::boxed(5, serde_json::to_value(1), &probe);
    let mut adapter = FutureSerializeFuture::new(future);
    assert!(matches!(pull_value(&mut adapter), Polled::Pending));
    drop(adapter);
    assert!(probe.dropped.get());
    assert_eq!(probe.polls.get(), 1);
}
