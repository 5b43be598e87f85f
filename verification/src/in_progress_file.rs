//! A file which is in the process of being written to.
use crate::decode::{DecodedMessage, DecodedMessageView, RunStopFields};
use crate::error::{FileWriterError, NexusStructureError, WriterModuleCreationError};
use crate::message_router::{router_subscribe, router_writers, keyed_writers, router_for_topic, MessageRouter, TopicRouterView, WriterId};
use crate::nexus_structure::{failure_matches, lemma_structure_plan_registered, plan_structure, steps_view, structure_plan, NexusFileStructure, NexusWriterModule, StructureStep, StructureStepView};
use crate::placed_writer::{PlacedWriter, PlacedWriterView};
use crate::run_start_parameters::RunStartParameters;
use crate::stream::KafkaMessageMeta;
use crate::subscription::{Subscription, SubscriptionView};
use crate::writer_module_registry::WriterModuleFactories;
use crate::writer_module::{created_subscriptions, fresh_module, lemma_fresh_module_unique, WriterModuleConfig, module_after_message, module_after_run_start, module_after_run_stop, module_finished, module_message_outcome, module_run_start_action, MessageOutcome, WriterAction, WriterActionView, WriterModule};
use vstd::prelude::*;

verus! {

/// Represents a file which is in the process of being written to: its writer modules,
/// which of them each message goes to, and whether the run has stopped.
pub struct InProgressFile<'a> {
    writers: Vec<PlacedWriter>,
    run_start_parameters: &'a RunStartParameters,
    run_stop_received: bool,
    router: MessageRouter,
}

/// Mathematical model of an `InProgressFile`.
pub struct InProgressFileView {
    pub writers: Seq<PlacedWriterView>,
    pub router: Map<Seq<char>, TopicRouterView>,
    pub run_stop_received: bool,
    pub job_id: Seq<char>,
    pub start_time: u64,
}

/// Every writer that the router `m` names is below `n`.
pub open spec fn router_ids_below(m: Map<Seq<char>, TopicRouterView>, n: nat) -> bool {
    forall|t: Seq<char>, key: Option<Seq<u8>>, i: int|
        #![trigger router_writers(m, t, key)[i]]
        0 <= i < router_writers(m, t, key).len() ==> router_writers(m, t, key)[i] < n
}

/// The router after writer `id` subscribes with each of `subs`, in order.
pub open spec fn subscribe_all(m: Map<Seq<char>, TopicRouterView>, id: WriterId, subs: Seq<SubscriptionView>) -> Map<Seq<char>, TopicRouterView>
    decreases subs.len(),
{
    if subs.len() == 0 {
        m
    } else {
        router_subscribe(subscribe_all(m, id, subs.drop_last()), id, subs.last())
    }
}

/// The action that a placed writer asks for, given what its module made of a message.
pub open spec fn outcome_action(o: MessageOutcome) -> WriterActionView {
    match o {
        MessageOutcome::Write(a) => a,
        MessageOutcome::Invalid(_) => WriterActionView::Nothing,
    }
}

/// The writers after each writer in `ids`, in order, handles a message with timestamp
/// `timestamp`, and the actions they ask for, each with its writer.
pub open spec fn dispatch(writers: Seq<PlacedWriterView>, ids: Seq<WriterId>, timestamp: Option<i64>, msg: DecodedMessageView) -> (Seq<PlacedWriterView>, Seq<(WriterId, WriterActionView)>)
    decreases ids.len(),
{
    if ids.len() == 0 {
        (writers, Seq::empty())
    } else {
        let prev = dispatch(writers, ids.drop_last(), timestamp, msg);
        let id = ids.last();
        let w = prev.0[id as int];
        let action = outcome_action(module_message_outcome(w.writer, timestamp, msg));
        (prev.0.update(id as int, PlacedWriterView { writer: module_after_message(w.writer, timestamp), ..w }), prev.1.push((id, action)))
    }
}

pub open spec fn actions_view(a: Seq<(WriterId, WriterAction)>) -> Seq<(WriterId, WriterActionView)> {
    a.map_values(|p: (WriterId, WriterAction)| (p.0, p.1@))
}

proof fn lemma_subscribe_keeps_below(m: Map<Seq<char>, TopicRouterView>, id: WriterId, sub: SubscriptionView, n: nat)
    requires
        router_ids_below(m, n),
        id < n,
    ensures
        router_ids_below(router_subscribe(m, id, sub), n),
{
    let m2 = router_subscribe(m, id, sub);
    assert forall|t: Seq<char>, key: Option<Seq<u8>>, i: int| #![trigger router_writers(m2, t, key)[i]] 0 <= i < router_writers(m2, t, key).len() implies router_writers(m2, t, key)[i] < n by {
        let old_ids = router_writers(m, t, key);
        if t == sub.topic {
            let r = router_for_topic(m, t);
            let old_keyed = match key { Some(k) => keyed_writers(r, k), None => Seq::empty() };
            match key {
                Some(k) => {
                    assert(old_ids == keyed_writers(r, k) + r.all);
                    if 0 <= i && i < keyed_writers(r, k).len() {
                        assert(old_ids[i] == keyed_writers(r, k)[i]);
                    }
                },
                None => {},
            }
            assert forall|j: int| 0 <= j < r.all.len() implies r.all[j] < n by {
                match key {
                    Some(k) => {
                        assert(old_ids[keyed_writers(r, k).len() + j] == r.all[j]);
                    },
                    None => {
                        assert(old_ids[j] == r.all[j]);
                    },
                }
            }
            match key {
                Some(k) => {
                    assert forall|j: int| 0 <= j < keyed_writers(r, k).len() implies keyed_writers(r, k)[j] < n by {
                        assert(old_ids[j] == keyed_writers(r, k)[j]);
                    }
                },
                None => {},
            }
        } else {
            assert(router_for_topic(m2, t) == router_for_topic(m, t));
        }
    }
}

proof fn lemma_subscribe_all_keeps_below(m: Map<Seq<char>, TopicRouterView>, id: WriterId, subs: Seq<SubscriptionView>, n: nat)
    requires
        router_ids_below(m, n),
        id < n,
    ensures
        router_ids_below(subscribe_all(m, id, subs), n),
    decreases subs.len(),
{
    if subs.len() > 0 {
        lemma_subscribe_all_keeps_below(m, id, subs.drop_last(), n);
        lemma_subscribe_keeps_below(subscribe_all(m, id, subs.drop_last()), id, subs.last(), n);
    }
}

proof fn lemma_below_grows(m: Map<Seq<char>, TopicRouterView>, n: nat, n2: nat)
    requires
        router_ids_below(m, n),
        n <= n2,
    ensures
        router_ids_below(m, n2),
{
}

/// A file after the run stop message with stop time `stop_time` for its run.
pub open spec fn file_after_run_stop(f: InProgressFileView, stop_time: u64) -> InProgressFileView {
    InProgressFileView {
        writers: Seq::new(f.writers.len(), |i: int| PlacedWriterView { writer: module_after_run_stop(f.writers[i].writer, stop_time), ..f.writers[i] }),
        run_stop_received: true,
        ..f
    }
}

/// A file after its writer modules handle a data message, and the writes they ask for.
pub open spec fn file_after_message(f: InProgressFileView, topic: Seq<char>, key: Option<Seq<u8>>, timestamp: Option<i64>, msg: DecodedMessageView) -> (InProgressFileView, Seq<(WriterId, WriterActionView)>) {
    let d = dispatch(f.writers, router_writers(f.router, topic, key), timestamp, msg);
    (InProgressFileView { writers: d.0, ..f }, d.1)
}

impl<'a> View for InProgressFile<'a> {
    type V = InProgressFileView;

    closed spec fn view(&self) -> InProgressFileView {
        InProgressFileView {
            writers: self.writers@.map_values(|w: PlacedWriter| w@),
            router: self.router@,
            run_stop_received: self.run_stop_received,
            job_id: self.run_start_parameters.job_id@,
            start_time: self.run_start_parameters.start_time,
        }
    }
}

impl<'a> InProgressFile<'a> {
    /// Well-formedness: every writer that the router names exists.
    pub closed spec fn wf(&self) -> bool {
        &&& self.router.wf()
        &&& router_ids_below(self.router@, self.writers@.len())
    }

    /// A file for the run `run_start_parameters`, with no writer modules yet.
    pub fn empty(run_start_parameters: &'a RunStartParameters) -> (f: InProgressFile<'a>)
        ensures
            f.wf(),
            f@.writers.len() == 0,
            f@.router =~= Map::empty(),
            !f@.run_stop_received,
            f@.job_id == run_start_parameters.job_id@,
            f@.start_time == run_start_parameters.start_time,
    {
        let f = InProgressFile { writers: Vec::new(), run_start_parameters, router: MessageRouter::new(), run_stop_received: false };
        assert(f@.writers =~= Seq::<PlacedWriterView>::empty());
        f
    }

    /// Add a writer module; it becomes writer number `old(self)@.writers.len()` and is
    /// subscribed to the messages it declared.
    pub fn add_placed_writer(&mut self, writer: PlacedWriter)
        requires
            old(self).wf(),
        ensures
            final(self).wf(),
            final(self)@ == (InProgressFileView {
                writers: old(self)@.writers.push(writer@),
                router: subscribe_all(old(self)@.router, old(self)@.writers.len() as WriterId, writer@.subscriptions),
                ..old(self)@
            }),
    {
        let idx = self.writers.len();
        let subs = writer.subscriptions();
        let mut i: usize = 0;
        while i < subs.len()
            invariant
                self.router.wf(),
                idx == self.writers@.len(),
                i <= subs@.len(),
                subs@.map_values(|x: Subscription| x@) == writer@.subscriptions,
                self.router@ == subscribe_all(old(self).router@, idx, writer@.subscriptions.subrange(0, i as int)),
                router_ids_below(self.router@, (idx + 1) as nat),
                self.writers == old(self).writers,
                self.run_start_parameters == old(self).run_start_parameters,
                self.run_stop_received == old(self).run_stop_received,
            decreases subs@.len() - i,
        {
            let ghost before = self.router@;
            self.router.subscribe(idx, &subs[i]);
            proof {
                assert(writer@.subscriptions.subrange(0, i + 1).drop_last() =~= writer@.subscriptions.subrange(0, i as int));
                assert(writer@.subscriptions[i as int] == subs@[i as int]@);
                lemma_subscribe_keeps_below(before, idx, subs@[i as int]@, (idx + 1) as nat);
            }
            i = i + 1;
        }
        proof {
            lemma_below_grows(old(self).router@, idx as nat, (idx + 1) as nat);
            assert(writer@.subscriptions.subrange(0, i as int) =~= writer@.subscriptions);
        }
        self.writers.push(writer);
        proof {
            assert(self@.writers =~= old(self)@.writers.push(writer@));
        }
    }

    /// The topics that some writer module subscribed to, each once.
    pub fn topics(&self) -> (t: Vec<String>)
        ensures
            t@.map_values(|s: String| s@).no_duplicates(),
            t@.map_values(|s: String| s@).to_set() == self@.router.dom(),
    {
        self.router.topics()
    }

    pub fn job_id(&self) -> (j: &str)
        ensures
            j@ == self@.job_id,
    {
        self.run_start_parameters.job_id.as_str()
    }

    /// Pass a message to the writer modules subscribed to it, in routing order. Returns
    /// the writes they ask for, each with its writer.
    pub fn on_message(&mut self, meta: &KafkaMessageMeta, msg: &DecodedMessage) -> (r: Result<Vec<(WriterId, WriterAction)>, FileWriterError>)
        requires
            old(self).wf(),
        ensures
            final(self).wf(),
            r matches Ok(actions) && {
                let d = dispatch(old(self)@.writers, router_writers(old(self)@.router, meta.topic@, meta.key_view()), meta.timestamp, msg@);
                &&& actions_view(actions@) == d.1
                &&& final(self)@ == (InProgressFileView { writers: d.0, ..old(self)@ })
            },
    {
        let writer_indices = self.router.writers_for(meta);
        let ghost ids = writer_indices@;
        let mut actions: Vec<(WriterId, WriterAction)> = Vec::new();
        let mut i: usize = 0;
        proof {
            assert(ids.subrange(0, 0) =~= Seq::<WriterId>::empty());
            assert(actions_view(actions@) =~= Seq::<(WriterId, WriterActionView)>::empty());
        }
        while i < writer_indices.len()
            invariant
                self.router == old(self).router,
                self.run_start_parameters == old(self).run_start_parameters,
                self.run_stop_received == old(self).run_stop_received,
                self.router.wf(),
                router_ids_below(self.router@, self.writers@.len()),
                self.writers@.len() == old(self).writers@.len(),
                ids == writer_indices@,
                ids == router_writers(old(self)@.router, meta.topic@, meta.key_view()),
                i <= ids.len(),
                ({
                    let d = dispatch(old(self)@.writers, ids.subrange(0, i as int), meta.timestamp, msg@);
                    &&& actions_view(actions@) == d.1
                    &&& self@.writers == d.0
                }),
            decreases ids.len() - i,
        {
            let writer_index = writer_indices[i];
            proof {
                assert(ids[i as int] < self.writers@.len());
                assert(ids.subrange(0, i + 1).drop_last() =~= ids.subrange(0, i as int));
            }
            if writer_index < self.writers.len() {
                let ghost before_writers = self@.writers;
                let ghost before_actions = actions_view(actions@);
                let mut w = self.writers.remove(writer_index);
                let result = w.on_message(meta, msg);
                self.writers.insert(writer_index, w);
                let action = match result {
                    Ok(a) => a,
                    Err(e) => {
                        proof { assert(false); }
                        return Err(e);
                    },
                };
                actions.push((writer_index, action));
                proof {
                    assert(self@.writers =~= before_writers.update(writer_index as int, PlacedWriterView { writer: module_after_message(before_writers[writer_index as int].writer, meta.timestamp), ..before_writers[writer_index as int] }));
                    assert(actions_view(actions@) =~= before_actions.push((writer_index, outcome_action(module_message_outcome(before_writers[writer_index as int].writer, meta.timestamp, msg@)))));
                }
            } else {
                return Err(FileWriterError::WriterModuleNotFound { writer_index });
            }
            i = i + 1;
        }
        proof {
            assert(ids.subrange(0, i as int) =~= ids);
        }
        Ok(actions)
    }

    /// Tell every writer module that the run has started. Returns the writes they ask
    /// for, each with its writer, in writer order.
    pub fn on_run_start(&mut self, parameters: &RunStartParameters) -> (r: Result<Vec<(WriterId, WriterAction)>, FileWriterError>)
        requires
            old(self).wf(),
        ensures
            final(self).wf(),
            r matches Ok(actions) && {
                &&& actions_view(actions@) == Seq::new(old(self)@.writers.len(), |i: int| (i as WriterId, module_run_start_action(old(self)@.writers[i].writer)))
                &&& final(self)@ == (InProgressFileView {
                    writers: Seq::new(old(self)@.writers.len(), |i: int| PlacedWriterView { writer: module_after_run_start(old(self)@.writers[i].writer, parameters.start_time), ..old(self)@.writers[i] }),
                    ..old(self)@
                })
            },
    {
        let mut actions: Vec<(WriterId, WriterAction)> = Vec::new();
        let mut i: usize = 0;
        while i < self.writers.len()
            invariant
                self.router == old(self).router,
                self.run_start_parameters == old(self).run_start_parameters,
                self.run_stop_received == old(self).run_stop_received,
                self.writers@.len() == old(self).writers@.len(),
                i <= self.writers@.len(),
                actions_view(actions@) == Seq::new(i as nat, |j: int| (j as WriterId, module_run_start_action(old(self)@.writers[j].writer))),
                forall|j: int| 0 <= j < i ==> #[trigger] self@.writers[j] == (PlacedWriterView { writer: module_after_run_start(old(self)@.writers[j].writer, parameters.start_time), ..old(self)@.writers[j] }),
                forall|j: int| i <= j < self@.writers.len() ==> #[trigger] self@.writers[j] == old(self)@.writers[j],
            decreases self.writers@.len() - i,
        {
            let ghost before_writers = self@.writers;
            let ghost before_actions = actions_view(actions@);
            let mut w = self.writers.remove(i);
            let result = w.on_run_start(parameters);
            self.writers.insert(i, w);
            proof {
                assert(self@.writers =~= before_writers.update(i as int, PlacedWriterView { writer: module_after_run_start(before_writers[i as int].writer, parameters.start_time), ..before_writers[i as int] }));
            }
            let action = match result {
                Ok(a) => a,
                Err(e) => {
                    proof { assert(false); }
                    return Err(e);
                },
            };
            actions.push((i, action));
            proof {
                assert(before_writers[i as int] == old(self)@.writers[i as int]);
                assert(actions_view(actions@) =~= before_actions.push((i, action@)));
                assert(actions_view(actions@) =~= Seq::new((i + 1) as nat, |j: int| (j as WriterId, module_run_start_action(old(self)@.writers[j].writer))));
            }
            i = i + 1;
        }
        proof {
            assert(self@.writers =~= Seq::new(old(self)@.writers.len(), |j: int| PlacedWriterView { writer: module_after_run_start(old(self)@.writers[j].writer, parameters.start_time), ..old(self)@.writers[j] }));
        }
        Ok(actions)
    }

    /// Tell every writer module that the run has stopped.
    pub fn on_run_stop(&mut self, meta: &KafkaMessageMeta, run_stop: &RunStopFields) -> (r: Result<(), FileWriterError>)
        requires
            old(self).wf(),
        ensures
            final(self).wf(),
            r is Ok,
            final(self)@ == (InProgressFileView {
                writers: Seq::new(old(self)@.writers.len(), |i: int| PlacedWriterView { writer: module_after_run_stop(old(self)@.writers[i].writer, run_stop.stop_time), ..old(self)@.writers[i] }),
                run_stop_received: true,
                ..old(self)@
            }),
    {
        let mut i: usize = 0;
        while i < self.writers.len()
            invariant
                self.router == old(self).router,
                self.run_start_parameters == old(self).run_start_parameters,
                self.run_stop_received == old(self).run_stop_received,
                self.writers@.len() == old(self).writers@.len(),
                i <= self.writers@.len(),
                forall|j: int| 0 <= j < i ==> #[trigger] self@.writers[j] == (PlacedWriterView { writer: module_after_run_stop(old(self)@.writers[j].writer, run_stop.stop_time), ..old(self)@.writers[j] }),
                forall|j: int| i <= j < self@.writers.len() ==> #[trigger] self@.writers[j] == old(self)@.writers[j],
            decreases self.writers@.len() - i,
        {
            let ghost before_writers = self@.writers;
            let mut w = self.writers.remove(i);
            let result = w.on_run_stop(meta, run_stop);
            self.writers.insert(i, w);
            proof {
                assert(self@.writers =~= before_writers.update(i as int, PlacedWriterView { writer: module_after_run_stop(before_writers[i as int].writer, run_stop.stop_time), ..before_writers[i as int] }));
            }
            if let Err(e) = result {
                proof { assert(false); }
                return Err(e);
            }
            i = i + 1;
        }
        proof {
            assert(self@.writers =~= Seq::new(old(self)@.writers.len(), |j: int| PlacedWriterView { writer: module_after_run_stop(old(self)@.writers[j].writer, run_stop.stop_time), ..old(self)@.writers[j] }));
        }
        self.run_stop_received = true;
        Ok(())
    }

    /// The writer module with number `index`, if there is one.
    pub fn writer(&self, index: WriterId) -> (w: Option<&PlacedWriter>)
        ensures
            match w {
                Some(w) => index < self@.writers.len() && w@ == self@.writers[index as int],
                None => index >= self@.writers.len(),
            },
    {
        if index < self.writers.len() {
            Some(&self.writers[index])
        } else {
            None
        }
    }

    /// Have all writer modules finished writing?
    pub fn finished(&self) -> (b: bool)
        ensures
            b == forall|i: int| 0 <= i < self@.writers.len() ==> #[trigger] module_finished(self@.writers[i].writer),
    {
        let mut i: usize = 0;
        while i < self.writers.len()
            invariant
                i <= self.writers@.len(),
                forall|j: int| 0 <= j < i ==> #[trigger] module_finished(self@.writers[j].writer),
            decreases self.writers@.len() - i,
        {
            let mut w_finished = false;
            {
                let w = &self.writers[i];
                assert(self@.writers[i as int] == w@);
                w_finished = writer_finished(w);
            }
            if !w_finished {
                return false;
            }
            i = i + 1;
        }
        true
    }
}

fn writer_finished(w: &PlacedWriter) -> (b: bool)
    ensures
        b == module_finished(w@.writer),
{
    w.writer_ref().finished()
}

} // verus!

verus! {

/// Whether a message on `topic` with `key` matches subscription `sub`.
pub open spec fn subscription_matches(sub: SubscriptionView, topic: Seq<char>, key: Option<Seq<u8>>) -> bool {
    sub.topic == topic && match sub.key {
        crate::subscription::SubscriptionKeyView::All => true,
        crate::subscription::SubscriptionKeyView::Key(k) => key == Some(k),
    }
}

proof fn lemma_subscribe_keeps_writers(m: Map<Seq<char>, TopicRouterView>, id: WriterId, sub: SubscriptionView, topic: Seq<char>, key: Option<Seq<u8>>, x: WriterId)
    requires
        router_writers(m, topic, key).contains(x),
    ensures
        router_writers(router_subscribe(m, id, sub), topic, key).contains(x),
{
    let m2 = router_subscribe(m, id, sub);
    let before = router_writers(m, topic, key);
    let after = router_writers(m2, topic, key);
    let j = choose|j: int| 0 <= j < before.len() && before[j] == x;
    if topic == sub.topic {
        let r = router_for_topic(m, topic);
        let r2 = router_for_topic(m2, topic);
        match key {
            Some(k) => {
                let kb = keyed_writers(r, k);
                let ka = keyed_writers(r2, k);
                assert(before == kb + r.all);
                assert(after == ka + r2.all);
                assert(ka.len() >= kb.len());
                assert(r2.all.len() >= r.all.len());
                if j < kb.len() {
                    assert(ka[j] == kb[j]);
                    assert(after[j] == x);
                } else {
                    assert(r2.all[j - kb.len()] == r.all[j - kb.len()]);
                    assert(after[ka.len() + (j - kb.len())] == x);
                }
            },
            None => {
                assert(after[j] == x);
            },
        }
    } else {
        assert(router_for_topic(m2, topic) == router_for_topic(m, topic));
    }
}

proof fn lemma_subscribe_adds_writer(m: Map<Seq<char>, TopicRouterView>, id: WriterId, sub: SubscriptionView, key: Option<Seq<u8>>)
    requires
        subscription_matches(sub, sub.topic, key),
    ensures
        router_writers(router_subscribe(m, id, sub), sub.topic, key).contains(id),
{
    let m2 = router_subscribe(m, id, sub);
    let r2 = router_for_topic(m2, sub.topic);
    let after = router_writers(m2, sub.topic, key);
    match sub.key {
        crate::subscription::SubscriptionKeyView::All => {
            match key {
                Some(k) => {
                    assert(after[keyed_writers(r2, k).len() + r2.all.len() - 1] == id);
                },
                None => {
                    assert(after[r2.all.len() - 1] == id);
                },
            }
        },
        crate::subscription::SubscriptionKeyView::Key(k) => {
            assert(keyed_writers(r2, k).last() == id);
            assert(after[keyed_writers(r2, k).len() - 1] == id);
        },
    }
}

/// Subscription law: a writer module added to a file as writer `id` gets every message
/// that matches one of its subscriptions, and the writers added before it keep getting
/// the messages they got.
pub proof fn lemma_added_writer_receives(m: Map<Seq<char>, TopicRouterView>, id: WriterId, subs: Seq<SubscriptionView>, topic: Seq<char>, key: Option<Seq<u8>>)
    ensures
        (exists|i: int| 0 <= i < subs.len() && subscription_matches(#[trigger] subs[i], topic, key))
            ==> router_writers(subscribe_all(m, id, subs), topic, key).contains(id),
        forall|x: WriterId| router_writers(m, topic, key).contains(x) ==> #[trigger] router_writers(subscribe_all(m, id, subs), topic, key).contains(x),
    decreases subs.len(),
{
    if subs.len() > 0 {
        let prefix = subs.drop_last();
        let last = subs.last();
        lemma_added_writer_receives(m, id, prefix, topic, key);
        let before = subscribe_all(m, id, prefix);
        assert forall|x: WriterId| router_writers(before, topic, key).contains(x) implies #[trigger] router_writers(router_subscribe(before, id, last), topic, key).contains(x) by {
            lemma_subscribe_keeps_writers(before, id, last, topic, key, x);
        }
        if exists|i: int| 0 <= i < subs.len() && subscription_matches(#[trigger] subs[i], topic, key) {
            let i = choose|i: int| 0 <= i < subs.len() && subscription_matches(#[trigger] subs[i], topic, key);
            if i == subs.len() - 1 {
                lemma_subscribe_adds_writer(before, id, last, key);
            } else {
                assert(prefix[i] == subs[i]);
                assert(subscription_matches(prefix[i], topic, key));
            }
        }
    }
}

} // verus!

verus! {

/// Stop law: a file with an NXevent_data writer module that has not been told of a run
/// stop, and has seen no message stamped with the largest time, is not finished.
pub proof fn lemma_not_finished_before_run_stop(f: InProgressFileView, i: int)
    requires
        0 <= i < f.writers.len(),
        f.writers[i].writer matches crate::writer_module::WriterModuleInstance::NXeventdata(m)
            && m.run_stop_time_ms == u64::MAX && m.latest_message_time_ms < u64::MAX,
    ensures
        !(forall|j: int| 0 <= j < f.writers.len() ==> #[trigger] module_finished(f.writers[j].writer)),
{
    assert(!module_finished(f.writers[i].writer));
}

} // verus!

verus! {

/// What came of one step of a structure plan, as the caller carried it out.
#[derive(Debug)]
pub enum StepOutcome {
    /// A step on the file itself (creating a group, writing attributes), with its result.
    Performed(Result<(), FileWriterError>),
    /// For a step that places a writer module: the module's configuration, parsed for
    /// the kind of module that the step places.
    WriterConfig(Result<WriterModuleConfig, WriterModuleCreationError>),
}

pub open spec fn outcome_failed(o: StepOutcome) -> bool {
    match o {
        StepOutcome::Performed(r) => r is Err,
        StepOutcome::WriterConfig(r) => r is Err,
    }
}

impl StepOutcome {
    /// Did this step fail?
    pub fn failed(&self) -> (b: bool)
        ensures
            b == outcome_failed(*self),
    {
        match self {
            StepOutcome::Performed(r) => r.is_err(),
            StepOutcome::WriterConfig(r) => r.is_err(),
        }
    }
}

/// Whether outcome `o` is of the sort that step `s` gives: a parsed configuration, for
/// the kind of module that the step places, where it places one; a result otherwise.
pub open spec fn outcome_fits(s: StructureStepView, o: StepOutcome) -> bool {
    match s {
        StructureStepView::PlaceWriter { kind, .. } => match o {
            StepOutcome::WriterConfig(r) => r matches Ok(c) ==> c.spec_kind() == kind,
            StepOutcome::Performed(_) => false,
        },
        _ => o is Performed,
    }
}

/// Whether `outcomes` are those of `steps`, carried out in order until one failed or
/// all were.
pub open spec fn outcomes_fit(steps: Seq<StructureStepView>, outcomes: Seq<StepOutcome>) -> bool {
    &&& outcomes.len() <= steps.len()
    &&& forall|i: int| 0 <= i < outcomes.len() ==> outcome_fits(steps[i], #[trigger] outcomes[i])
    &&& outcomes.len() < steps.len() ==> exists|i: int| 0 <= i < outcomes.len() && outcome_failed(#[trigger] outcomes[i])
}

/// Whether outcome `k` is the first that failed.
pub open spec fn first_failed(outcomes: Seq<StepOutcome>, k: int) -> bool {
    &&& 0 <= k < outcomes.len()
    &&& outcome_failed(outcomes[k])
    &&& forall|j: int| 0 <= j < k ==> !outcome_failed(#[trigger] outcomes[j])
}

pub open spec fn none_failed(outcomes: Seq<StepOutcome>) -> bool {
    forall|j: int| 0 <= j < outcomes.len() ==> !outcome_failed(#[trigger] outcomes[j])
}

/// The writer modules that the steps place, in order, as created from their
/// configurations in `outcomes`, before the run starts.
pub open spec fn planned_writers(steps: Seq<StructureStepView>, outcomes: Seq<StepOutcome>) -> Seq<PlacedWriterView>
    decreases outcomes.len(),
{
    if outcomes.len() == 0 {
        Seq::empty()
    } else {
        let prev = planned_writers(steps, outcomes.drop_last());
        match (steps[outcomes.len() - 1], outcomes.last()) {
            (StructureStepView::PlaceWriter { location, module, .. }, StepOutcome::WriterConfig(Ok(c))) =>
                prev.push(PlacedWriterView { location, name: module, writer: fresh_module(c), subscriptions: created_subscriptions(c) }),
            _ => prev,
        }
    }
}

/// The router of a file whose writer modules are `writers`, each subscribed in turn,
/// writer `i` as number `i`.
pub open spec fn writers_router(writers: Seq<PlacedWriterView>) -> Map<Seq<char>, TopicRouterView>
    decreases writers.len(),
{
    if writers.len() == 0 {
        Map::empty()
    } else {
        subscribe_all(writers_router(writers.drop_last()), (writers.len() - 1) as WriterId, writers.last().subscriptions)
    }
}

/// The writer modules after the run starts at `start_time`.
pub open spec fn started_writers(writers: Seq<PlacedWriterView>, start_time: u64) -> Seq<PlacedWriterView> {
    Seq::new(writers.len(), |i: int| PlacedWriterView { writer: module_after_run_start(writers[i].writer, start_time), ..writers[i] })
}

/// What the writer modules write when the run starts, each with its number.
pub open spec fn run_start_actions(writers: Seq<PlacedWriterView>) -> Seq<(WriterId, WriterActionView)> {
    Seq::new(writers.len(), |i: int| (i as WriterId, module_run_start_action(writers[i].writer)))
}

/// Whether `e` is the error of step `s`, whose outcome `o` failed.
pub open spec fn step_error(s: StructureStepView, o: StepOutcome, e: FileWriterError) -> bool {
    match o {
        StepOutcome::Performed(r) => r == Err::<(), FileWriterError>(e),
        StepOutcome::WriterConfig(r) => match (s, r) {
            (StructureStepView::PlaceWriter { location, module, .. }, Err(cause)) =>
                e matches FileWriterError::NexusStructureError(NexusStructureError::WriterModuleCreationError { cause: c, module_name, location: l })
                    && c == cause && module_name@ == module && l@ == location,
            _ => false,
        },
    }
}

/// Whether `e` is the error of a structure that cannot be built, for `failure`.
pub open spec fn plan_error(e: FileWriterError, failure: Option<crate::nexus_structure::StructureFailure>) -> bool {
    e matches FileWriterError::NexusStructureError(inner) && failure_matches(Some(inner), failure)
}

impl<'a> InProgressFile<'a> {
    /// Build the file for the run `run_start_parameters` from its NeXus structure, whose
    /// writer modules are looked up in `factories`, and start the run.
    ///
    /// `outcomes` are what came of the steps of `plan_structure(structure, factories)`,
    /// carried out in order until one failed. The first that failed is the error; then a
    /// structure that cannot be built; else the file, whose writer modules are those that
    /// the structure places, in document order, each subscribed to what it declared,
    /// together with what they write when the run starts.
    pub fn new(
        run_start_parameters: &'a RunStartParameters,
        structure: &NexusFileStructure,
        factories: &WriterModuleFactories,
        outcomes: Vec<StepOutcome>,
    ) -> (r: Result<(InProgressFile<'a>, Vec<(WriterId, WriterAction)>), FileWriterError>)
        requires
            outcomes_fit(structure_plan(*structure, factories@).0, outcomes@),
        ensures
            forall|k: int| first_failed(outcomes@, k) ==>
                (r matches Err(e) && step_error(#[trigger] structure_plan(*structure, factories@).0[k], outcomes@[k], e)),
            none_failed(outcomes@) && structure_plan(*structure, factories@).1 is Some ==>
                (r matches Err(e) && plan_error(e, structure_plan(*structure, factories@).1)),
            none_failed(outcomes@) && structure_plan(*structure, factories@).1 is None ==>
                (r matches Ok((f, actions)) && {
                    let writers = planned_writers(structure_plan(*structure, factories@).0, outcomes@);
                    &&& f.wf()
                    &&& f@ == (InProgressFileView {
                        writers: started_writers(writers, run_start_parameters.start_time),
                        router: writers_router(writers),
                        run_stop_received: false,
                        job_id: run_start_parameters.job_id@,
                        start_time: run_start_parameters.start_time,
                    })
                    &&& actions_view(actions@) == run_start_actions(writers)
                }),
    {
        let plan = plan_structure(structure, factories);
        let ghost steps = structure_plan(*structure, factories@).0;
        let ghost all = outcomes@;
        proof {
            lemma_structure_plan_registered(*structure, factories@);
        }
        let mut rest = outcomes;
        let n = rest.len();
        let mut f = InProgressFile::empty(run_start_parameters);
        let mut i: usize = 0;
        proof {
            assert(all.subrange(0, 0) =~= Seq::<StepOutcome>::empty());
            assert(rest@ =~= all.subrange(0, 0 + n));
            assert(planned_writers(steps, all.subrange(0, 0)) == Seq::<PlacedWriterView>::empty());
            assert(writers_router(Seq::<PlacedWriterView>::empty()) == Map::<Seq<char>, TopicRouterView>::empty());
            assert(f@.writers =~= Seq::<PlacedWriterView>::empty());
            assert(f@.router =~= Map::<Seq<char>, TopicRouterView>::empty());
        }
        while i < n
            invariant
                all == outcomes@,
                n == all.len(),
                i <= n,
                steps_view(plan.steps@) == steps,
                steps == structure_plan(*structure, factories@).0,
                outcomes_fit(steps, all),
                crate::nexus_structure::places_registered(steps, factories@),
                rest@ == all.subrange(i as int, n as int),
                none_failed(all.subrange(0, i as int)),
                f.wf(),
                f@ == (InProgressFileView {
                    writers: planned_writers(steps, all.subrange(0, i as int)),
                    router: writers_router(planned_writers(steps, all.subrange(0, i as int))),
                    run_stop_received: false,
                    job_id: run_start_parameters.job_id@,
                    start_time: run_start_parameters.start_time,
                }),
            decreases n - i,
        {
            let ghost prefix = all.subrange(0, i as int);
            let ghost next = all.subrange(0, i + 1);
            proof {
                assert(next.drop_last() =~= prefix);
                assert(next.last() == all[i as int]);
                assert(rest@[0] == all[i as int]);
                assert(outcome_fits(steps[i as int], all[i as int]));
                assert(steps[i as int] == plan.steps@[i as int]@);
            }
            let outcome = rest.remove(0);
            proof {
                assert(rest@ =~= all.subrange(i + 1, n as int));
                assert(outcome == all[i as int]);
                assert forall|j: int| 0 <= j < i implies !outcome_failed(#[trigger] all[j]) by {
                    assert(prefix[j] == all[j]);
                }
            }
            match outcome {
                StepOutcome::Performed(Ok(())) => {
                    proof {
                        assert(planned_writers(steps, next) == planned_writers(steps, prefix));
                    }
                },
                StepOutcome::Performed(Err(e)) => {
                    proof {
                        assert(outcome_failed(all[i as int]));
                        assert(!none_failed(all));
                        assert forall|k: int| first_failed(all, k) implies step_error(steps[k], all[k], e) by {
                            if k < i {
                                assert(prefix[k] == all[k]);
                            }
                            if k > i {
                                assert(!outcome_failed(all[i as int]));
                            }
                        }
                    }
                    return Err(e);
                },
                StepOutcome::WriterConfig(config) => {
                    match &plan.steps[i] {
                        StructureStep::PlaceWriter { location, module, kind: _ } => {
                            let spec = NexusWriterModule { module: module.module.clone(), config: module.config.clone() };
                            let placed = PlacedWriter::new(location.clone(), spec, factories, config);
                            match placed {
                                Ok(p) => {
                                    proof {
                                        lemma_fresh_module_unique(p@.writer, config->Ok_0);
                                        let w = planned_writers(steps, prefix);
                                        assert(planned_writers(steps, next) == w.push(p@));
                                        assert(w.push(p@).drop_last() =~= w);
                                    }
                                    f.add_placed_writer(p);
                                },
                                Err(e) => {
                                    proof {
                                        assert(outcome_failed(all[i as int]));
                                        assert(!none_failed(all));
                                        assert forall|k: int| first_failed(all, k) implies k == i by {
                                            if k < i {
                                                assert(prefix[k] == all[k]);
                                            }
                                            if k > i {
                                                assert(!outcome_failed(all[i as int]));
                                            }
                                        }
                                    }
                                    return Err(FileWriterError::NexusStructureError(e));
                                },
                            }
                        },
                        _ => {
                            proof {
                                assert(false);
                            }
                        },
                    }
                },
            }
            proof {
                assert forall|j: int| 0 <= j < i + 1 implies !outcome_failed(#[trigger] next[j]) by {
                    if j < i {
                        assert(next[j] == prefix[j]);
                    }
                }
            }
            i = i + 1;
        }
        proof {
            assert(all.subrange(0, n as int) =~= all);
        }
        match plan.failure {
            Some(e) => {
                return Err(FileWriterError::NexusStructureError(e));
            },
            None => {},
        }
        let ghost before = f@;
        let actions = match f.on_run_start(run_start_parameters) {
            Ok(a) => a,
            Err(e) => {
                proof {
                    assert(false);
                }
                return Err(e);
            },
        };
        proof {
            assert(f@.writers =~= started_writers(before.writers, run_start_parameters.start_time));
            assert(actions_view(actions@) =~= run_start_actions(before.writers));
        }
        Ok((f, actions))
    }
}

} // verus!

verus! {

/// The topics of the subscriptions `subs`.
pub open spec fn subscription_topics(subs: Seq<SubscriptionView>) -> Set<Seq<char>> {
    Set::new(|t: Seq<char>| exists|j: int| 0 <= j < subs.len() && (#[trigger] subs[j]).topic == t)
}

/// The topics that some writer module among `writers` subscribed to.
pub open spec fn writers_topics(writers: Seq<PlacedWriterView>) -> Set<Seq<char>> {
    Set::new(|t: Seq<char>| exists|i: int| 0 <= i < writers.len() && subscription_topics((#[trigger] writers[i]).subscriptions).contains(t))
}

/// Topic law: once a writer module has subscribed with `subs`, the router knows the
/// topics it knew before and those of `subs`, and no other.
pub proof fn lemma_added_writer_topics(m: Map<Seq<char>, TopicRouterView>, id: WriterId, subs: Seq<SubscriptionView>)
    ensures
        subscribe_all(m, id, subs).dom() == m.dom() + subscription_topics(subs),
    decreases subs.len(),
{
    if subs.len() == 0 {
        assert(m.dom() + subscription_topics(subs) =~= m.dom());
    } else {
        let prefix = subs.drop_last();
        lemma_added_writer_topics(m, id, prefix);
        assert forall|t: Seq<char>| subscription_topics(subs).contains(t) <==> (subscription_topics(prefix).contains(t) || t == subs.last().topic) by {
            if subscription_topics(subs).contains(t) {
                let j = choose|j: int| 0 <= j < subs.len() && (#[trigger] subs[j]).topic == t;
                if j < subs.len() - 1 {
                    assert(prefix[j] == subs[j]);
                }
            }
            if subscription_topics(prefix).contains(t) {
                let j = choose|j: int| 0 <= j < prefix.len() && (#[trigger] prefix[j]).topic == t;
                assert(subs[j] == prefix[j]);
            }
            if t == subs.last().topic {
                assert(subs[subs.len() - 1].topic == t);
            }
        }
        assert(subscribe_all(m, id, subs).dom() =~= m.dom() + subscription_topics(subs));
    }
}

/// The topics of a file built with writer modules `writers` are those that some writer
/// module subscribed to.
pub proof fn lemma_built_file_topics(writers: Seq<PlacedWriterView>)
    ensures
        writers_router(writers).dom() == writers_topics(writers),
    decreases writers.len(),
{
    if writers.len() == 0 {
        assert(writers_topics(writers) =~= Set::<Seq<char>>::empty());
    } else {
        let prefix = writers.drop_last();
        lemma_built_file_topics(prefix);
        lemma_added_writer_topics(writers_router(prefix), (writers.len() - 1) as WriterId, writers.last().subscriptions);
        assert forall|t: Seq<char>| writers_topics(writers).contains(t) <==> (writers_topics(prefix).contains(t) || subscription_topics(writers.last().subscriptions).contains(t)) by {
            if writers_topics(writers).contains(t) {
                let i = choose|i: int| 0 <= i < writers.len() && subscription_topics((#[trigger] writers[i]).subscriptions).contains(t);
                if i < writers.len() - 1 {
                    assert(prefix[i] == writers[i]);
                }
            }
            if writers_topics(prefix).contains(t) {
                let i = choose|i: int| 0 <= i < prefix.len() && subscription_topics((#[trigger] prefix[i]).subscriptions).contains(t);
                assert(writers[i] == prefix[i]);
            }
            if subscription_topics(writers.last().subscriptions).contains(t) {
                assert(subscription_topics(writers[writers.len() - 1].subscriptions).contains(t));
            }
        }
        assert(writers_router(writers).dom() =~= writers_topics(writers));
    }
}

} // verus!

verus! {

/// Dispatch law: a message reaches every writer module that it is routed to, in
/// routing order. One write comes back for each routed writer, tagged with its number;
/// writers that are not routed are left as they were; and where no writer is routed
/// twice, each routed writer ends in its state after the message and asks for what its
/// module makes of the message.
pub proof fn lemma_dispatch_reaches_every_routed_writer(writers: Seq<PlacedWriterView>, ids: Seq<WriterId>, timestamp: Option<i64>, msg: DecodedMessageView)
    requires
        forall|j: int| 0 <= j < ids.len() ==> #[trigger] ids[j] < writers.len(),
    ensures
        dispatch(writers, ids, timestamp, msg).0.len() == writers.len(),
        dispatch(writers, ids, timestamp, msg).1.len() == ids.len(),
        forall|j: int| 0 <= j < ids.len() ==> (#[trigger] dispatch(writers, ids, timestamp, msg).1[j]).0 == ids[j],
        forall|i: int| 0 <= i < writers.len() && !ids.contains(i as WriterId) ==> #[trigger] dispatch(writers, ids, timestamp, msg).0[i] == writers[i],
        ids.no_duplicates() ==> forall|j: int| 0 <= j < ids.len() ==> {
            &&& #[trigger] dispatch(writers, ids, timestamp, msg).0[ids[j] as int] == (PlacedWriterView {
                writer: module_after_message(writers[ids[j] as int].writer, timestamp),
                ..writers[ids[j] as int]
            })
            &&& dispatch(writers, ids, timestamp, msg).1[j].1 == outcome_action(module_message_outcome(writers[ids[j] as int].writer, timestamp, msg))
        },
    decreases ids.len(),
{
    if ids.len() > 0 {
        let prefix = ids.drop_last();
        let id = ids.last();
        assert forall|j: int| 0 <= j < prefix.len() implies #[trigger] prefix[j] < writers.len() by {
            assert(prefix[j] == ids[j]);
        }
        lemma_dispatch_reaches_every_routed_writer(writers, prefix, timestamp, msg);
        let prev = dispatch(writers, prefix, timestamp, msg);
        let d = dispatch(writers, ids, timestamp, msg);
        assert(ids[ids.len() - 1] < writers.len());
        assert forall|j: int| 0 <= j < ids.len() implies (#[trigger] d.1[j]).0 == ids[j] by {
            if j < prefix.len() {
                assert(d.1[j] == prev.1[j]);
                assert(prefix[j] == ids[j]);
            }
        }
        assert forall|i: int| 0 <= i < writers.len() && !ids.contains(i as WriterId) implies #[trigger] d.0[i] == writers[i] by {
            if prefix.contains(i as WriterId) {
                let k = choose|k: int| 0 <= k < prefix.len() && prefix[k] == i as WriterId;
                assert(ids[k] == prefix[k]);
            }
            assert(ids[ids.len() - 1] == id);
            assert(i != id as int);
        }
        if ids.no_duplicates() {
            assert(prefix.no_duplicates()) by {
                assert forall|a: int, b: int| 0 <= a < prefix.len() && 0 <= b < prefix.len() && a != b implies prefix[a] != prefix[b] by {
                    assert(prefix[a] == ids[a] && prefix[b] == ids[b]);
                }
            }
            assert(!prefix.contains(id)) by {
                if prefix.contains(id) {
                    let k = choose|k: int| 0 <= k < prefix.len() && prefix[k] == id;
                    assert(ids[k] == id && ids[ids.len() - 1] == id);
                }
            }
            assert(prev.0[id as int] == writers[id as int]);
            assert forall|j: int| 0 <= j < ids.len() implies {
                &&& #[trigger] d.0[ids[j] as int] == (PlacedWriterView {
                    writer: module_after_message(writers[ids[j] as int].writer, timestamp),
                    ..writers[ids[j] as int]
                })
                &&& d.1[j].1 == outcome_action(module_message_outcome(writers[ids[j] as int].writer, timestamp, msg))
            } by {
                if j < prefix.len() {
                    assert(prefix[j] == ids[j]);
                    assert(ids[j] != id);
                    assert(d.1[j] == prev.1[j]);
                }
            }
        }
    }
}

} // verus!
