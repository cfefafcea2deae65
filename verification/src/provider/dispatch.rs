//! The consumer list of a provider and the delivery of event records to it.
//!
//! Consumers are kept in the order in which they were registered, and every
//! record is handed to each of them in that order, one after the other, with
//! the same mutable context. Registration and delivery both need exclusive
//! access to the list, so a delivery sees exactly the consumers that were
//! registered before it began.
//!
//! What a delivery does is stated over the consumers themselves. Each
//! consumer says by `answers` what it makes of a record and a context. A
//! delivery then owes a chain of contexts, one for each consumer in the order
//! of registration: the first is the context as the caller gave it, each
//! consumer answers to the delivered record with its own, each context is
//! what the one before was left as, and the caller gets back what the last
//! was left as. Beside that the list keeps a record of the calls made, which
//! the laws on providers speak of.

use vstd::prelude::*;

verus! {

/// Something that takes event records of type `R` together with a mutable
/// resolution context of type `C`.
///
/// `observed` is the history of the consumer: the records it has been handed,
/// oldest first. `answers` says what the consumer does with a record: it
/// holds of a record and a context exactly if the consumer, handed that
/// record and that context, can leave the context as the reference says it
/// is left. Both exist for specification only.
pub trait EventConsumer<R, C>: Send + Sync {
    /// The records this consumer has been handed so far.
    spec fn observed(&self) -> Seq<R>;

    /// Whether the consumer, handed `record` and the context as `context`
    /// holds it, can leave the context as `context` holds it in the end.
    spec fn answers(&self, record: R, context: &mut C) -> bool;

    /// Hands one record to the consumer: the consumer works on the context
    /// as it was given and leaves it as its answer says.
    fn on_event(&mut self, record: R, context: &mut C)
        ensures
            final(self).observed() == old(self).observed().push(record),
            forall|later: R, other: &mut C|
                #[trigger] final(self).answers(later, other) == old(self).answers(
                    later,
                    other,
                ),
            exists|c: &mut C|
                {
                    &&& *c == *old(context)
                    &&& *final(c) == *final(context)
                    &&& #[trigger] old(self).answers(record, c)
                },
    ;
}

/// A consumer made of a function: each record is passed to the function.
pub struct Callback<F: Fn(R, &mut C), R, C> {
    call: F,
    seen: Ghost<Seq<R>>,
    context: core::marker::PhantomData<C>,
}

impl<F: Fn(R, &mut C), R, C> Callback<F, R, C> {
    #[verifier::type_invariant]
    spec fn accepts_everything(self) -> bool {
        forall|record: R, context: &mut C| call_requires(self.call, (record, context))
    }

    /// The function that the records are passed to.
    pub closed spec fn function(&self) -> F {
        self.call
    }

    /// The records passed to the function so far.
    pub closed spec fn history(&self) -> Seq<R> {
        self.seen@
    }

    /// Wraps a function that accepts every record and context.
    pub fn new(call: F) -> (callback: Self)
        requires
            forall|record: R, context: &mut C| call_requires(call, (record, context)),
        ensures
            callback.function() == call,
            callback.history() == Seq::<R>::empty(),
    {
        Callback { call, seen: Ghost(Seq::empty()), context: core::marker::PhantomData }
    }
}

impl<F: Fn(R, &mut C) + Send + Sync, R: Send + Sync, C: Send + Sync> EventConsumer<
    R,
    C,
> for Callback<F, R, C> {
    open spec fn observed(&self) -> Seq<R> {
        self.history()
    }

    open spec fn answers(&self, record: R, context: &mut C) -> bool {
        call_ensures(self.function(), (record, context), ())
    }

    /// Calls the function once, with the record and the context.
    fn on_event(&mut self, record: R, context: &mut C)
        ensures
            final(self).function() == old(self).function(),
    {
        proof {
            use_type_invariant(&*self);
            self.seen@ = self.seen@.push(record);
        }
        (self.call)(record, context);
        proof {
            let handed = choose|c: &mut C|
                *c == *old(context) && *final(c) == *context && #[trigger] call_ensures(
                    self.call,
                    (record, c),
                    (),
                );
            assert(old(self).answers(record, handed));
        }
    }
}

/// One call of a consumer: the consumer, named by its place in the list, and
/// the record it was handed.
pub struct Call<R> {
    pub consumer: nat,
    pub record: R,
}

/// What a consumer list is, as far as its contracts go: the number of its
/// consumers and every call made to one of them, in the order in which the
/// calls were made.
pub struct Dispatch<R> {
    pub consumers: nat,
    pub calls: Seq<Call<R>>,
}

/// The records among `calls` that were handed to `consumer`, oldest first.
pub open spec fn handed_to<R>(calls: Seq<Call<R>>, consumer: nat) -> Seq<R>
    decreases calls.len(),
{
    if calls.len() == 0 {
        Seq::empty()
    } else if calls.last().consumer == consumer {
        handed_to(calls.drop_last(), consumer).push(calls.last().record)
    } else {
        handed_to(calls.drop_last(), consumer)
    }
}

/// The calls of one delivery: each of `consumers` consumers is handed
/// `record` once, the first registered first.
pub open spec fn round<R>(consumers: nat, record: R) -> Seq<Call<R>> {
    Seq::new(consumers, |i: int| Call { consumer: i as nat, record })
}

impl<R> Dispatch<R> {
    /// No consumers and no calls.
    pub open spec fn empty() -> Self {
        Dispatch { consumers: 0, calls: Seq::empty() }
    }

    /// One more consumer, behind the others.
    pub open spec fn registered(self) -> Self {
        Dispatch { consumers: self.consumers + 1, ..self }
    }

    /// One more delivery: a round of calls with `record`.
    pub open spec fn delivered(self, record: R) -> Self {
        Dispatch { calls: self.calls + round(self.consumers, record), ..self }
    }
}

/// A registered consumer together with the length its history had when it was
/// registered.
#[verifier::reject_recursive_types(R)]
#[verifier::reject_recursive_types(C)]
struct Slot<R, C> {
    consumer: Box<dyn EventConsumer<R, C>>,
    before: Ghost<nat>,
}

impl<R, C> Slot<R, C> {
    spec fn wf(&self) -> bool {
        self.before@ <= self.consumer.observed().len()
    }

    /// The records the consumer has been handed since it was registered.
    spec fn delivered(&self) -> Seq<R> {
        self.consumer.observed().skip(self.before@ as int)
    }
}

/// Boxes a consumer. Of a value turned into a trait object Verus knows nothing.
fn boxed<R, C, T: EventConsumer<R, C> + 'static>(consumer: T) -> Box<dyn EventConsumer<R, C>> {
    Box::new(consumer)
}

/// Makes the slot of a consumer that joins a list. The records it observed
/// earlier do not count as deliveries of that list.
fn enlist<R, C>(consumer: Box<dyn EventConsumer<R, C>>) -> (slot: Slot<R, C>)
    ensures
        slot.wf(),
        slot.delivered() == Seq::<R>::empty(),
{
    let mut slot = Slot { before: Ghost(0), consumer };
    proof {
        slot.before@ = slot.consumer.observed().len();
    }
    slot
}

/// The ordered consumers of one provider.
#[verifier::reject_recursive_types(R)]
#[verifier::reject_recursive_types(C)]
pub struct ConsumerList<R, C> {
    slots: Vec<Slot<R, C>>,
    calls: Ghost<Seq<Call<R>>>,
}

impl<R: Copy, C> View for ConsumerList<R, C> {
    type V = Dispatch<R>;

    closed spec fn view(&self) -> Dispatch<R> {
        Dispatch { consumers: self.slots@.len(), calls: self.calls@ }
    }
}

impl<R: Copy, C> ConsumerList<R, C> {
    /// The invariant of the list: the calls on record are calls of its
    /// consumers, and the history of each consumer has grown by exactly the
    /// records of the calls made to it.
    pub closed spec fn wf(&self) -> bool {
        &&& forall|k: int|
            0 <= k < self.calls@.len() ==> (#[trigger] self.calls@[k]).consumer < self.slots@.len()
        &&& forall|i: int|
            0 <= i < self.slots@.len() ==> {
                &&& (#[trigger] self.slots@[i]).wf()
                &&& self.slots@[i].delivered() == handed_to(self.calls@, i as nat)
            }
    }

    /// The consumers of the list, the first registered first.
    pub closed spec fn consumers(&self) -> Seq<Box<dyn EventConsumer<R, C>>> {
        Seq::new(self.slots@.len(), |i: int| self.slots@[i].consumer)
    }

    /// The view counts the consumers of the list.
    pub proof fn lemma_view_counts_consumers(&self)
        ensures
            self@.consumers == self.consumers().len(),
    {
    }

    /// A list without consumers.
    pub fn new() -> (list: Self)
        ensures
            list.wf(),
            list@ == Dispatch::<R>::empty(),
            list.consumers().len() == 0,
    {
        ConsumerList { slots: Vec::new(), calls: Ghost(Seq::empty()) }
    }

    /// The number of registered consumers.
    pub fn len(&self) -> (n: usize)
        ensures
            n == self@.consumers,
            n == self.consumers().len(),
    {
        self.slots.len()
    }

    /// Registers a consumer behind those registered before: they keep their
    /// places, and the new one stands last.
    pub fn push<T: EventConsumer<R, C> + 'static>(&mut self, consumer: T)
        requires
            old(self).wf(),
        ensures
            final(self).wf(),
            final(self)@ == old(self)@.registered(),
            final(self).consumers().len() == old(self).consumers().len() + 1,
            final(self).consumers().drop_last() == old(self).consumers(),
    {
        let slot = enlist(boxed(consumer));
        proof {
            lemma_strangers_are_handed_nothing(self.calls@, self.slots@.len() as nat);
        }
        self.slots.push(slot);
        assert(self.consumers().drop_last() =~= old(self).consumers());
    }

    /// Hands `record` to every consumer, in registration order, one after
    /// the other: the first works on the context as the caller gave it, each
    /// of the others on the context as the one before left it, and the
    /// caller gets the context back as the last one left it. Every consumer
    /// keeps its place.
    pub fn deliver(&mut self, record: R, context: &mut C)
        requires
            old(self).wf(),
        ensures
            final(self).wf(),
            final(self)@ == old(self)@.delivered(record),
            kept_in_place(old(self).consumers(), final(self).consumers(), record),
            exists|handed: Seq<&mut C>|
                {
                    &&& each_answers(old(self).consumers(), record, handed)
                    &&& forall|k: int|
                        0 < k < handed.len() ==> *#[trigger] handed[k] == *final(handed[k - 1])
                    &&& handed.len() > 0 ==> *handed[0] == *old(context)
                    &&& handed.len() > 0 ==> *final(handed[handed.len() - 1]) == *final(context)
                    &&& handed.len() == 0 ==> *final(context) == *old(context)
                },
    {
        let n: usize = self.slots.len();
        let mut i: usize = 0;
        assert(Seq::<&mut C>::empty().len() == 0);
        while i < n
            invariant
                i <= n,
                n == self.slots@.len(),
                n == old(self).slots@.len(),
                self.wf(),
                self.calls@ == old(self).calls@ + round(i as nat, record),
                forall|j: int| i <= j < n ==> (#[trigger] self.slots@[j]) == old(self).slots@[j],
                kept_in_place(
                    old(self).consumers().take(i as int),
                    self.consumers().take(i as int),
                    record,
                ),
                exists|handed: Seq<&mut C>|
                    {
                        &&& each_answers(old(self).consumers().take(i as int), record, handed)
                        &&& forall|k: int|
                            0 < k < handed.len() ==> *#[trigger] handed[k] == *final(handed[k - 1])
                        &&& handed.len() > 0 ==> *handed[0] == *old(context)
                        &&& handed.len() > 0 ==> *final(handed[handed.len() - 1]) == *context
                        &&& handed.len() == 0 ==> *context == *old(context)
                    },
            decreases n - i,
        {
            let ghost earlier = self.calls@;
            let ghost before = choose|handed: Seq<&mut C>|
                {
                    &&& each_answers(old(self).consumers().take(i as int), record, handed)
                    &&& forall|k: int|
                        0 < k < handed.len() ==> *#[trigger] handed[k] == *final(handed[k - 1])
                    &&& handed.len() > 0 ==> *handed[0] == *old(context)
                    &&& handed.len() > 0 ==> *final(handed[handed.len() - 1]) == *context
                    &&& handed.len() == 0 ==> *context == *old(context)
                };
            let ghost entering = *context;
            let ghost slots = self.slots@;
            let ghost reached = self.consumers().take(i as int);
            self.slots[i].consumer.on_event(record, context);
            proof {
                self.calls@ = earlier.push(Call { consumer: i as nat, record });
                assert(self.calls@.drop_last() =~= earlier);
                assert(self.calls@ =~= old(self).calls@ + round((i + 1) as nat, record));
                assert forall|j: int| 0 <= j < n implies {
                    &&& (#[trigger] self.slots@[j]).wf()
                    &&& self.slots@[j].delivered() == handed_to(self.calls@, j as nat)
                } by {}
                let first = old(self).consumers();
                let now = self.consumers();
                let step = choose|c: &mut C|
                    *c == entering && *final(c) == *context && #[trigger] first[i as int].answers(
                        record,
                        c,
                    );
                let after = before.push(step);
                assert forall|k: int| 0 <= k < after.len() implies #[trigger] first.take(
                    i + 1,
                )[k].answers(record, after[k]) by {
                    if k < i {
                        assert(after[k] == before[k]);
                        assert(first.take(i as int)[k] == first.take(i + 1)[k]);
                    }
                }
                assert forall|k: int| 0 < k < after.len() implies *#[trigger] after[k] == *final(
                    after[k - 1]
                ) by {
                    if k < i {
                        assert(after[k] == before[k]);
                    }
                    assert(after[k - 1] == before[k - 1]);
                }
                assert(each_answers(first.take(i + 1), record, after));
                assert forall|k: int| 0 <= k < i + 1 implies {
                    &&& (#[trigger] now.take(i + 1)[k]).observed() == first.take(
                        i + 1,
                    )[k].observed().push(record)
                    &&& forall|later: R, other: &mut C|
                        #[trigger] now.take(i + 1)[k].answers(later, other) == first.take(
                            i + 1,
                        )[k].answers(later, other)
                } by {
                    assert(now.take(i + 1)[k] == self.slots@[k].consumer);
                    assert(first.take(i + 1)[k] == old(self).slots@[k].consumer);
                    if k < i {
                        assert(self.slots@[k] == slots[k]);
                        assert(reached[k] == slots[k].consumer);
                        assert(first.take(i as int)[k] == old(self).slots@[k].consumer);
                    } else {
                        assert(slots[k] == old(self).slots@[k]);
                    }
                }
            }
            i += 1;
        }
        proof {
            assert(old(self).consumers().take(n as int) =~= old(self).consumers());
            assert(self.consumers().take(n as int) =~= self.consumers());
        }
    }
}

/// Whether `handed` holds one context for each of `consumers` such that each
/// consumer, handed `record` and its context, answers as the context says.
pub open spec fn each_answers<R, C>(
    consumers: Seq<Box<dyn EventConsumer<R, C>>>,
    record: R,
    handed: Seq<&mut C>,
) -> bool {
    &&& handed.len() == consumers.len()
    &&& forall|k: int|
        0 <= k < handed.len() ==> #[trigger] consumers[k].answers(record, handed[k])
}

/// Whether `after` holds the consumers of `before`, each at its place, after
/// each has been handed `record`: the history of each has grown by the
/// record, and each answers as it did.
pub open spec fn kept_in_place<R, C>(
    before: Seq<Box<dyn EventConsumer<R, C>>>,
    after: Seq<Box<dyn EventConsumer<R, C>>>,
    record: R,
) -> bool {
    &&& after.len() == before.len()
    &&& forall|k: int|
        0 <= k < before.len() ==> {
            &&& (#[trigger] after[k]).observed() == before[k].observed().push(record)
            &&& forall|later: R, other: &mut C|
                #[trigger] after[k].answers(later, other) == before[k].answers(later, other)
        }
}

/// A consumer that none of the calls names has been handed nothing.
proof fn lemma_strangers_are_handed_nothing<R>(calls: Seq<Call<R>>, consumer: nat)
    requires
        forall|k: int| 0 <= k < calls.len() ==> (#[trigger] calls[k]).consumer != consumer,
    ensures
        handed_to(calls, consumer) == Seq::<R>::empty(),
    decreases calls.len(),
{
    if calls.len() > 0 {
        lemma_strangers_are_handed_nothing(calls.drop_last(), consumer);
    }
}

/// Within one round every consumer is handed the record exactly once.
pub proof fn lemma_round_hands_once<R>(consumers: nat, record: R, consumer: nat)
    ensures
        handed_to(round(consumers, record), consumer) == if consumer < consumers {
            seq![record]
        } else {
            Seq::empty()
        },
    decreases consumers,
{
    let calls = round(consumers, record);
    if consumers > 0 {
        let fewer = (consumers - 1) as nat;
        assert(calls.drop_last() =~= round(fewer, record));
        lemma_round_hands_once(fewer, record, consumer);
    }
}

/// What a consumer was handed in two runs of calls is what it was handed in
/// the first followed by what it was handed in the second.
pub proof fn lemma_handed_to_in_sequence<R>(
    first: Seq<Call<R>>,
    second: Seq<Call<R>>,
    consumer: nat,
)
    ensures
        handed_to(first + second, consumer) == handed_to(first, consumer) + handed_to(
            second,
            consumer,
        ),
    decreases second.len(),
{
    if second.len() > 0 {
        assert((first + second).drop_last() =~= first + second.drop_last());
        lemma_handed_to_in_sequence(first, second.drop_last(), consumer);
        assert((handed_to(first, consumer) + handed_to(second.drop_last(), consumer)).push(
            second.last().record,
        ) =~= handed_to(first, consumer) + handed_to(second.drop_last(), consumer).push(
            second.last().record,
        ));
    }
}

/// A delivery hands the record once more to every consumer of the list, and
/// to nobody else.
pub proof fn lemma_delivery_hands_once<R>(before: Dispatch<R>, record: R, consumer: nat)
    ensures
        handed_to(before.delivered(record).calls, consumer) == if consumer < before.consumers {
            handed_to(before.calls, consumer).push(record)
        } else {
            handed_to(before.calls, consumer)
        },
{
    lemma_handed_to_in_sequence(before.calls, round(before.consumers, record), consumer);
    lemma_round_hands_once(before.consumers, record, consumer);
}

} // verus!
