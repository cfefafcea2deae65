//! Providers: what to listen to, and who is told.
//!
//! A [`Provider`] is configured step by step: an identity (an identifier
//! given directly, found by a lookup, or taken from the catalog of kernel
//! providers), keyword masks, a level, flags, and the consumers of its
//! events. `build` closes the configuration and refuses a provider without
//! identity. A built provider is handed to a trace session, which delivers
//! every event record through `on_event`.

use crate::guid::{is_guid_text, parse_text, text_value, Guid};
use crate::native::pla::PlaError;
use crate::provider::dispatch::{
    each_answers, handed_to, kept_in_place, lemma_round_hands_once, round, Call, Callback,
    ConsumerList, Dispatch,
};
use crate::provider::kernel_providers::KernelProvider;
use vstd::prelude::*;
use vstd::std_specs::convert::FromSpecImpl;

pub mod dispatch;
pub mod kernel_providers;

verus! {

/// Why a provider could not be configured.
#[derive(Debug, Clone, Copy, PartialEq, Eq, Structural)]
pub enum ProviderError {
    /// The provider has no identifier.
    NoGuid,
    /// The lookup of the provider by its name failed.
    ComProvider(PlaError),
    /// The text given for the identifier is not a well-formed identifier.
    MalformedGuid,
}

impl From<PlaError> for ProviderError {
    fn from(err: PlaError) -> (error: Self) {
        ProviderError::ComProvider(err)
    }
}

impl FromSpecImpl<PlaError> for ProviderError {
    open spec fn obeys_from_spec() -> bool {
        true
    }

    open spec fn from_spec(err: PlaError) -> Self {
        ProviderError::ComProvider(err)
    }
}

pub type ProviderResult<T> = Result<T, ProviderError>;

/// The level of a provider that has not been given one.
pub const DEFAULT_LEVEL: u8 = 5;

/// What a provider is, as far as its contracts go: its six settings, the
/// number of its consumers, and the calls made to them.
pub struct ProviderView<R> {
    pub guid: Option<Guid>,
    pub any: u64,
    pub all: u64,
    pub level: u8,
    pub trace_flags: u32,
    pub flags: u32,
    pub dispatch: Dispatch<R>,
}

/// One step in the life of a provider: a step of its configuration, or the
/// delivery of an event record.
pub enum Step<R> {
    /// An identifier is bound: one given as text, one found by a lookup.
    Identity(Guid),
    /// The keyword mask of which one bit has to match is set.
    Any(u64),
    /// The keyword mask of which every bit has to match is set.
    All(u64),
    /// The level is set.
    Level(u8),
    /// The trace flags are set.
    TraceFlags(u32),
    /// A consumer is registered.
    Consumer,
    /// An event record is delivered.
    Event(R),
}

impl<R> ProviderView<R> {
    /// A provider without identity and without consumers, with empty masks
    /// and flags and the default level.
    pub open spec fn fresh() -> Self {
        ProviderView {
            guid: None,
            any: 0,
            all: 0,
            level: DEFAULT_LEVEL,
            trace_flags: 0,
            flags: 0,
            dispatch: Dispatch::empty(),
        }
    }

    /// A provider for an entry of the catalog of kernel providers: it has the
    /// identifier and the enable flag of the entry and is otherwise fresh.
    pub open spec fn of_kernel(entry: KernelProvider) -> Self {
        ProviderView { guid: Some(entry.guid), flags: entry.flags, ..Self::fresh() }
    }

    /// The provider after one step.
    pub open spec fn after(self, step: Step<R>) -> Self {
        match step {
            Step::Identity(guid) => ProviderView { guid: Some(guid), ..self },
            Step::Any(any) => ProviderView { any, ..self },
            Step::All(all) => ProviderView { all, ..self },
            Step::Level(level) => ProviderView { level, ..self },
            Step::TraceFlags(trace_flags) => ProviderView { trace_flags, ..self },
            Step::Consumer => ProviderView { dispatch: self.dispatch.registered(), ..self },
            Step::Event(record) => ProviderView {
                dispatch: self.dispatch.delivered(record),
                ..self
            },
        }
    }

    /// The provider after a sequence of steps, taken first to last.
    pub open spec fn after_all(self, steps: Seq<Step<R>>) -> Self
        decreases steps.len(),
    {
        if steps.len() == 0 {
            self
        } else {
            self.after_all(steps.drop_last()).after(steps.last())
        }
    }

    /// What closing the configuration gives: the provider itself where it has
    /// an identifier, and a refusal where it has none.
    pub open spec fn built(self) -> Result<Self, ProviderError> {
        if self.guid is Some {
            Ok(self)
        } else {
            Err(ProviderError::NoGuid)
        }
    }
}

/// The description of one source of events for a trace session, together
/// with the consumers of its events.
///
/// `R` is the type of an event record and `C` the type of the resolution
/// context that the session passes along with each record.
#[verifier::reject_recursive_types(R)]
#[verifier::reject_recursive_types(C)]
pub struct Provider<R, C> {
    /// The identifier of the provider, once it has one.
    pub guid: Option<Guid>,
    /// The keyword mask of which one bit has to match.
    pub any: u64,
    /// The keyword mask of which every bit has to match.
    pub all: u64,
    /// The least severe level that is still reported.
    pub level: u8,
    /// The trace flags.
    pub trace_flags: u32,
    /// The enable flags; they matter for kernel providers only.
    pub flags: u32,
    /// The consumers of the events, in the order of their registration.
    pub callbacks: ConsumerList<R, C>,
}

impl<R: Copy, C> View for Provider<R, C> {
    type V = ProviderView<R>;

    open spec fn view(&self) -> ProviderView<R> {
        ProviderView {
            guid: self.guid,
            any: self.any,
            all: self.all,
            level: self.level,
            trace_flags: self.trace_flags,
            flags: self.flags,
            dispatch: self.callbacks@,
        }
    }
}

impl<R: Copy, C> Provider<R, C> {
    /// Whether the provider can be used: its consumer list is in order.
    pub open spec fn wf(&self) -> bool {
        self.callbacks.wf()
    }

    /// A provider without identity and without consumers, with empty masks
    /// and flags and the default level.
    pub fn new() -> (provider: Self)
        ensures
            provider.wf(),
            provider@ == ProviderView::<R>::fresh(),
            provider.callbacks.consumers().len() == 0,
    {
        Provider {
            guid: None,
            any: 0,
            all: 0,
            level: DEFAULT_LEVEL,
            trace_flags: 0,
            flags: 0,
            callbacks: ConsumerList::new(),
        }
    }

    /// A provider for an entry of the catalog of kernel providers: it has the
    /// identifier and the enable flag of the entry, and is otherwise new.
    pub fn kernel(kernel_provider: &KernelProvider) -> (provider: Self)
        ensures
            provider.wf(),
            provider@ == ProviderView::<R>::of_kernel(*kernel_provider),
            provider.callbacks.consumers().len() == 0,
    {
        Provider {
            guid: Some(kernel_provider.guid),
            any: 0,
            all: 0,
            level: DEFAULT_LEVEL,
            trace_flags: 0,
            flags: kernel_provider.flags,
            callbacks: ConsumerList::new(),
        }
    }

    /// Gives the provider the identifier that `guid` denotes.
    pub fn by_guid(self, guid: &str) -> (provider: Self)
        requires
            is_guid_text(guid@),
        ensures
            provider@ == self@.after(Step::Identity(text_value(guid@))),
            provider.callbacks == self.callbacks,
    {
        Provider { guid: Some(Guid::from(guid)), ..self }
    }

    /// Gives the provider the identifier that `guid` denotes, or reports that
    /// the text denotes none.
    pub fn try_by_guid(self, guid: &str) -> (result: ProviderResult<Self>)
        ensures
            match parse_text(guid@) {
                Some(parsed) => result is Ok && result->Ok_0@ == self@.after(
                    Step::Identity(parsed),
                ) && result->Ok_0.callbacks == self.callbacks,
                None => result == Err::<Self, ProviderError>(ProviderError::MalformedGuid),
            },
    {
        match Guid::parse(guid) {
            Some(parsed) => Ok(Provider { guid: Some(parsed), ..self }),
            None => Err(ProviderError::MalformedGuid),
        }
    }

    /// Gives the provider the identifier that a lookup by name found, or
    /// hands on the failure of the lookup.
    pub fn by_name(self, resolved: Result<Guid, PlaError>) -> (result: ProviderResult<Self>)
        ensures
            match resolved {
                Ok(found) => result is Ok && result->Ok_0@ == self@.after(Step::Identity(found))
                    && result->Ok_0.callbacks == self.callbacks,
                Err(failure) => result == Err::<Self, ProviderError>(
                    ProviderError::ComProvider(failure),
                ),
            },
    {
        match resolved {
            Ok(found) => Ok(Provider { guid: Some(found), ..self }),
            Err(failure) => Err(ProviderError::from(failure)),
        }
    }

    /// Sets the keyword mask of which one bit has to match.
    pub fn any(self, any: u64) -> (provider: Self)
        ensures
            provider@ == self@.after(Step::Any(any)),
            provider.callbacks == self.callbacks,
    {
        Provider { any, ..self }
    }

    /// Sets the keyword mask of which every bit has to match.
    pub fn all(self, all: u64) -> (provider: Self)
        ensures
            provider@ == self@.after(Step::All(all)),
            provider.callbacks == self.callbacks,
    {
        Provider { all, ..self }
    }

    /// Sets the level.
    pub fn level(self, level: u8) -> (provider: Self)
        ensures
            provider@ == self@.after(Step::Level(level)),
            provider.callbacks == self.callbacks,
    {
        Provider { level, ..self }
    }

    /// Sets the trace flags.
    pub fn trace_flags(self, trace_flag: u32) -> (provider: Self)
        ensures
            provider@ == self@.after(Step::TraceFlags(trace_flag)),
            provider.callbacks == self.callbacks,
    {
        Provider { trace_flags: trace_flag, ..self }
    }

    /// Registers a function as a consumer behind those registered before.
    pub fn add_callback<T>(self, callback: T) -> (provider: Self) where
        T: Fn(R, &mut C) + Send + Sync + 'static,
        R: Send + Sync + 'static,
        C: Send + Sync + 'static,

        requires
            self.wf(),
            forall|record: R, context: &mut C| call_requires(callback, (record, context)),
        ensures
            provider.wf(),
            provider@ == self@.after(Step::Consumer),
            provider.callbacks.consumers().len() == self.callbacks.consumers().len() + 1,
            provider.callbacks.consumers().drop_last() == self.callbacks.consumers(),
    {
        let mut provider = self;
        provider.callbacks.push(Callback::new(callback));
        provider
    }

    /// The number of registered consumers.
    pub fn callback_count(&self) -> (count: usize)
        ensures
            count == self@.dispatch.consumers,
    {
        self.callbacks.len()
    }

    /// Closes the configuration: a provider with an identifier is handed
    /// back unchanged, one without is refused.
    pub fn build(self) -> (result: ProviderResult<Self>)
        ensures
            match result {
                Ok(provider) => provider == self && self@.built() == Ok::<
                    ProviderView<R>,
                    ProviderError,
                >(self@),
                Err(error) => self@.built() == Err::<ProviderView<R>, ProviderError>(error),
            },
    {
        if self.guid.is_none() {
            return Err(ProviderError::NoGuid);
        }
        Ok(self)
    }

    /// Delivers one event record: every consumer is handed `record`, in the
    /// order of registration, one after the other. The first works on the
    /// locator as the caller gave it, each of the others on the locator as
    /// the one before left it, and the caller gets the locator back as the
    /// last one left it. Every consumer keeps its place.
    pub fn on_event(&mut self, record: R, locator: &mut C)
        requires
            old(self).wf(),
        ensures
            final(self).wf(),
            final(self)@ == old(self)@.after(Step::Event(record)),
            kept_in_place(
                old(self).callbacks.consumers(),
                final(self).callbacks.consumers(),
                record,
            ),
            exists|handed: Seq<&mut C>|
                {
                    &&& each_answers(old(self).callbacks.consumers(), record, handed)
                    &&& forall|k: int|
                        0 < k < handed.len() ==> *#[trigger] handed[k] == *final(handed[k - 1])
                    &&& handed.len() > 0 ==> *handed[0] == *old(locator)
                    &&& handed.len() > 0 ==> *final(handed[handed.len() - 1]) == *final(locator)
                    &&& handed.len() == 0 ==> *final(locator) == *old(locator)
                },
    {
        self.callbacks.deliver(record, locator);
    }
}

/// Whether a step binds an identifier.
pub open spec fn binds_identity<R>(step: Step<R>) -> bool {
    step is Identity
}

/// A provider has an identifier after a sequence of steps exactly if it had
/// one before or one of the steps bound one.
pub proof fn lemma_identity_comes_from_a_step<R>(start: ProviderView<R>, steps: Seq<Step<R>>)
    ensures
        start.after_all(steps).guid is Some <==> (start.guid is Some || exists|i: int|
            0 <= i < steps.len() && binds_identity(#[trigger] steps[i])),
    decreases steps.len(),
{
    if steps.len() > 0 {
        let earlier = steps.drop_last();
        lemma_identity_comes_from_a_step(start, earlier);
        if exists|i: int| 0 <= i < steps.len() && binds_identity(#[trigger] steps[i]) {
            let i = choose|i: int| 0 <= i < steps.len() && binds_identity(#[trigger] steps[i]);
            if i < earlier.len() {
                assert(binds_identity(earlier[i]));
            }
        }
    }
}

/// Closing the configuration of a fresh provider fails, for want of an
/// identifier, exactly if none of the steps taken before bound one.
pub proof fn lemma_build_fails_without_identity<R>(steps: Seq<Step<R>>)
    ensures
        ProviderView::<R>::fresh().after_all(steps).built() is Err <==> forall|i: int|
            0 <= i < steps.len() ==> !binds_identity(#[trigger] steps[i]),
        ProviderView::<R>::fresh().after_all(steps).built() is Err ==> ProviderView::<R>::fresh().after_all(
            steps,
        ).built() == Err::<ProviderView<R>, ProviderError>(ProviderError::NoGuid),
{
    lemma_identity_comes_from_a_step(ProviderView::<R>::fresh(), steps);
}

/// The steps that register `count` consumers and then deliver `record`.
pub open spec fn registrations_then_event<R>(count: nat, record: R) -> Seq<Step<R>> {
    Seq::new(count, |i: int| Step::Consumer).push(Step::Event(record))
}

/// On the record of calls, a delivery that follows `count` registrations
/// shows one call of every consumer, the first registered first. On a fresh
/// provider these are all the calls on record: each of the `count` consumers
/// has been handed the record, and nothing else.
pub proof fn lemma_delivery_reaches_every_consumer<R>(
    start: ProviderView<R>,
    count: nat,
    record: R,
)
    ensures
        start.after_all(registrations_then_event(count, record)).dispatch == (Dispatch {
            consumers: start.dispatch.consumers + count,
            calls: start.dispatch.calls + round(start.dispatch.consumers + count, record),
        }),
        ProviderView::<R>::fresh().after_all(registrations_then_event(count, record)).dispatch.calls
            == round(count, record),
        forall|consumer: nat|
            consumer < count ==> #[trigger] handed_to(
                ProviderView::<R>::fresh().after_all(
                    registrations_then_event(count, record),
                ).dispatch.calls,
                consumer,
            ) == seq![record],
{
    let registrations = Seq::new(count, |i: int| Step::<R>::Consumer);
    let steps = registrations_then_event(count, record);
    assert(steps.drop_last() =~= registrations);
    lemma_registrations(start, count);
    lemma_registrations(ProviderView::<R>::fresh(), count);
    assert forall|consumer: nat| consumer < count implies #[trigger] handed_to(
        round(count, record),
        consumer,
    ) == seq![record] by {
        lemma_round_hands_once(count, record, consumer);
    }
}

/// Registering `count` consumers adds `count` consumers and changes nothing
/// else.
proof fn lemma_registrations<R>(start: ProviderView<R>, count: nat)
    ensures
        start.after_all(Seq::new(count, |i: int| Step::<R>::Consumer)) == (ProviderView {
            dispatch: Dispatch { consumers: start.dispatch.consumers + count, ..start.dispatch },
            ..start
        }),
    decreases count,
{
    let steps = Seq::new(count, |i: int| Step::<R>::Consumer);
    if count > 0 {
        let fewer = (count - 1) as nat;
        lemma_registrations(start, fewer);
        assert(steps.drop_last() =~= Seq::new(fewer, |i: int| Step::<R>::Consumer));
    }
}

} // verus!
