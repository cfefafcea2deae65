use ferrisetw::provider::dispatch::{Callback, ConsumerList};
use std::sync::{Arc, Mutex};

#[derive(Clone, Copy, Debug, PartialEq, Eq)]
struct Record(u32);

struct Context {
    visits: Vec<(usize, u32)>,
}

type Log = Arc<Mutex<Vec<(usize, u32)>>>;

/// A consumer with state of its own: it counts the records it is handed,
/// writes the count to `log` and notes in the context who it is.
fn numbering(id: usize, log: &Log) -> Callback<impl Fn(Record, &mut Context) + Send + Sync, Record, Context> {
    let log = log.clone();
    let taken = Mutex::new(0u32);
    Callback::new(move |record: Record, context: &mut Context| {
        let mut taken = taken.lock().unwrap();
        *taken += 1;
        context.visits.push((id, record.0));
        log.lock().unwrap().push((id, *taken));
    })
}

#[test]
fn consumers_are_called_in_registration_order() {
    let log: Log = Arc::new(Mutex::new(Vec::new()));
    let mut list: ConsumerList<Record, Context> = ConsumerList::new();
    for id in 0..4 {
        list.push(numbering(id, &log));
    }
    assert_eq!(4, list.len());
    let mut context = Context { visits: Vec::new() };
    list.deliver(Record(9), &mut context);
    assert_eq!(vec![(0, 9), (1, 9), (2, 9), (3, 9)], context.visits);
    list.deliver(Record(10), &mut context);
    assert_eq!(
        vec![(0, 9), (1, 9), (2, 9), (3, 9), (0, 10), (1, 10), (2, 10), (3, 10)],
        context.visits
    );
    assert_eq!(
        vec![(0, 1), (1, 1), (2, 1), (3, 1), (0, 2), (1, 2), (2, 2), (3, 2)],
        *log.lock().unwrap()
    );
    assert_eq!(4, list.len());
}

#[test]
fn delivery_to_an_empty_list_does_nothing() {
    let mut list: ConsumerList<Record, Context> = ConsumerList::new();
    assert_eq!(0, list.len());
    let mut context = Context { visits: vec![(7, 7)] };
    list.deliver(Record(1), &mut context);
    assert_eq!(vec![(7, 7)], context.visits);
    assert_eq!(0, list.len());
}

#[test]
fn a_consumer_registered_later_misses_earlier_records() {
    let mut list: ConsumerList<Record, Context> = ConsumerList::new();
    let mut context = Context { visits: Vec::new() };
    list.push(Callback::new(|record: Record, context: &mut Context| {
        context.visits.push((0, record.0))
    }));
    list.deliver(Record(1), &mut context);
    list.push(Callback::new(|record: Record, context: &mut Context| {
        context.visits.push((1, record.0))
    }));
    list.deliver(Record(2), &mut context);
    assert_eq!(vec![(0, 1), (0, 2), (1, 2)], context.visits);
}

#[test]
fn every_consumer_sees_what_the_earlier_ones_left_in_the_context() {
    let mut list: ConsumerList<Record, Context> = ConsumerList::new();
    for id in 0..3 {
        list.push(Callback::new(move |record: Record, context: &mut Context| {
            let before = context.visits.len() as u32;
            context.visits.push((id, record.0 + before))
        }));
    }
    let mut context = Context { visits: Vec::new() };
    list.deliver(Record(100), &mut context);
    assert_eq!(vec![(0, 100), (1, 101), (2, 102)], context.visits);
}
