//! The mode registry and the event pump.
//!
//! An [`Application`] owns a mapping from unique names to modes and the name
//! of the currently active mode, if any. Its invariant — the active name,
//! when set, is always a registered key — is established by [`Application::new`]
//! and preserved by every operation; [`lemma_registry_ops_preserve_invariant`]
//! states this for whole sequences of operations. The pump loop, [`Application::spin`],
//! fetches events from an [`EventSource`] and forwards each to the active
//! mode's dispatcher, stopping at exhaustion or at the first error.

use vstd::prelude::*;

use crate::error::CoreError;
use crate::event::{Event, EventSource};
use crate::handler::{dispatch, dispatch_spec, run_mode, EventHandler};

verus! {

/// No two entries of the association list share a name.
pub open spec fn unique_keys<M: View>(s: Seq<(String, M)>) -> bool {
    forall|i: int, j: int| 0 <= i < j < s.len() ==> s[i].0@ != s[j].0@
}

/// The mapping an association list of named modes stands for, each mode
/// abstracted to its model.
pub open spec fn map_of<M: View>(s: Seq<(String, M)>) -> Map<Seq<char>, M::V>
    decreases s.len(),
{
    if s.len() == 0 {
        Map::empty()
    } else {
        map_of(s.drop_last()).insert(s.last().0@, s.last().1@)
    }
}

/// A name is in the mapping exactly when some entry carries it.
pub proof fn lemma_map_of_contains<M: View>(s: Seq<(String, M)>, name: Seq<char>)
    ensures
        map_of(s).contains_key(name) <==> exists|i: int| 0 <= i < s.len() && s[i].0@ == name,
    decreases s.len(),
{
    if s.len() > 0 {
        lemma_map_of_contains(s.drop_last(), name);
        if map_of(s).contains_key(name) {
            if name == s.last().0@ {
                assert(s[s.len() - 1].0@ == name);
            } else {
                let i = choose|i: int| 0 <= i < s.drop_last().len() && s.drop_last()[i].0@ == name;
                assert(s[i].0@ == name);
            }
        }
        if exists|i: int| 0 <= i < s.len() && s[i].0@ == name {
            let i = choose|i: int| 0 <= i < s.len() && s[i].0@ == name;
            if i < s.len() - 1 {
                assert(s.drop_last()[i].0@ == name);
            }
        }
    }
}

/// With unique names, the mapping carries each entry's mode at its name.
pub proof fn lemma_map_of_index<M: View>(s: Seq<(String, M)>, i: int)
    requires
        unique_keys(s),
        0 <= i < s.len(),
    ensures
        map_of(s).contains_key(s[i].0@),
        map_of(s)[s[i].0@] == s[i].1@,
    decreases s.len(),
{
    if i < s.len() - 1 {
        assert(s[i].0@ != s.last().0@);
        lemma_map_of_index(s.drop_last(), i);
    }
}

/// Appending an entry with a fresh name inserts it into the mapping and keeps
/// the names unique.
pub proof fn lemma_map_of_push<M: View>(s: Seq<(String, M)>, p: (String, M))
    requires
        unique_keys(s),
        forall|i: int| 0 <= i < s.len() ==> s[i].0@ != p.0@,
    ensures
        map_of(s.push(p)) == map_of(s).insert(p.0@, p.1@),
        unique_keys(s.push(p)),
{
    assert(s.push(p).drop_last() =~= s);
    assert(s.push(p).last() == p);
}

/// Replacing the mode of one entry, its name kept, updates the mapping at that
/// name and keeps the names unique.
pub proof fn lemma_map_of_update<M: View>(s: Seq<(String, M)>, i: int, p: (String, M))
    requires
        unique_keys(s),
        0 <= i < s.len(),
        p.0@ == s[i].0@,
    ensures
        map_of(s.update(i, p)) == map_of(s).insert(p.0@, p.1@),
        unique_keys(s.update(i, p)),
    decreases s.len(),
{
    let t = s.update(i, p);
    assert(unique_keys(t)) by {
        assert(forall|k: int| 0 <= k < t.len() ==> t[k].0@ == s[k].0@);
    }
    if i == s.len() - 1 {
        assert(t.drop_last() =~= s.drop_last());
        assert(t.last() == p);
        assert(map_of(t) =~= map_of(s).insert(p.0@, p.1@));
    } else {
        assert(t.drop_last() =~= s.drop_last().update(i, p));
        assert(t.last() == s.last());
        assert(s.drop_last()[i] == s[i]);
        lemma_map_of_update(s.drop_last(), i, p);
        assert(p.0@ != s.last().0@);
        assert(map_of(t) =~= map_of(s).insert(p.0@, p.1@));
    }
}

/// Removing one entry removes its name from the mapping and keeps the names
/// unique.
pub proof fn lemma_map_of_remove<M: View>(s: Seq<(String, M)>, i: int)
    requires
        unique_keys(s),
        0 <= i < s.len(),
    ensures
        map_of(s.remove(i)) == map_of(s).remove(s[i].0@),
        unique_keys(s.remove(i)),
    decreases s.len(),
{
    let t = s.remove(i);
    assert(unique_keys(t)) by {
        assert(forall|k: int| 0 <= k < t.len() ==> t[k] == if k < i {
            s[k]
        } else {
            s[k + 1]
        });
    }
    if i == s.len() - 1 {
        assert(t =~= s.drop_last());
        lemma_map_of_contains(s.drop_last(), s[i].0@);
        assert(!map_of(s.drop_last()).contains_key(s[i].0@));
        assert(map_of(t) =~= map_of(s).remove(s[i].0@));
    } else {
        assert(t.drop_last() =~= s.drop_last().remove(i));
        assert(t.last() == s.last());
        assert(s.drop_last()[i] == s[i]);
        lemma_map_of_remove(s.drop_last(), i);
        assert(s[i].0@ != s.last().0@);
        assert(map_of(t) =~= map_of(s).remove(s[i].0@));
    }
}

/// One registry operation, abstracted to names and mode models.
pub ghost enum RegistryOp<MV> {
    Add { name: Seq<char>, mode: MV },
    Remove { name: Seq<char> },
    Activate { name: Seq<char> },
}

/// The registry invariant: the active name, when set, is a registered key.
pub open spec fn registry_invariant<MV>(
    modes: Map<Seq<char>, MV>,
    active: Option<Seq<char>>,
) -> bool {
    active matches Some(n) ==> modes.contains_key(n)
}

/// What one registry operation does to the mapping and the active name; a
/// failing operation leaves both unchanged.
pub open spec fn apply_registry_op<MV>(
    modes: Map<Seq<char>, MV>,
    active: Option<Seq<char>>,
    op: RegistryOp<MV>,
) -> (Map<Seq<char>, MV>, Option<Seq<char>>) {
    match op {
        RegistryOp::Add { name, mode } => {
            if modes.contains_key(name) {
                (modes, active)
            } else {
                (modes.insert(name, mode), active)
            }
        },
        RegistryOp::Remove { name } => {
            if active == Some(name) || !modes.contains_key(name) {
                (modes, active)
            } else {
                (modes.remove(name), active)
            }
        },
        RegistryOp::Activate { name } => {
            if active == Some(name) || !modes.contains_key(name) {
                (modes, active)
            } else {
                (modes, Some(name))
            }
        },
    }
}

/// The mapping and active name after a whole sequence of registry operations.
pub open spec fn apply_registry_ops<MV>(
    modes: Map<Seq<char>, MV>,
    active: Option<Seq<char>>,
    ops: Seq<RegistryOp<MV>>,
) -> (Map<Seq<char>, MV>, Option<Seq<char>>)
    decreases ops.len(),
{
    if ops.len() == 0 {
        (modes, active)
    } else {
        let (m2, a2) = apply_registry_op(modes, active, ops[0]);
        apply_registry_ops(m2, a2, ops.drop_first())
    }
}

/// After any sequence of add, remove, and activate operations — succeeding or
/// not — the active name, when set, is a key present in the mapping.
pub proof fn lemma_registry_ops_preserve_invariant<MV>(
    modes: Map<Seq<char>, MV>,
    active: Option<Seq<char>>,
    ops: Seq<RegistryOp<MV>>,
)
    requires
        registry_invariant(modes, active),
    ensures
        registry_invariant(
            apply_registry_ops(modes, active, ops).0,
            apply_registry_ops(modes, active, ops).1,
        ),
    decreases ops.len(),
{
    if ops.len() > 0 {
        let (m2, a2) = apply_registry_op(modes, active, ops[0]);
        lemma_registry_ops_preserve_invariant(m2, a2, ops.drop_first());
    }
}

/// What handling one event does to the mapping: the active mode's model is
/// replaced by what dispatching the event to it yields, and the dispatcher's
/// result is returned; with no active mode registered nothing changes and
/// [`CoreError::NoActiveModeDuringEvent`] is reported.
pub open spec fn handle_event_spec<M: EventHandler>(
    modes: Map<Seq<char>, M::V>,
    active: Option<Seq<char>>,
    event: Event,
) -> (Map<Seq<char>, M::V>, Result<(), CoreError>) {
    match active {
        None => (modes, Err(CoreError::NoActiveModeDuringEvent)),
        Some(n) => {
            if modes.contains_key(n) {
                let (mv, res) = dispatch_spec::<M>(modes[n], event);
                (modes.insert(n, mv), res)
            } else {
                (modes, Err(CoreError::NoActiveModeDuringEvent))
            }
        },
    }
}

/// What pumping a sequence of events does: events are handled strictly in
/// order, and the first error stops the pump with the events after it left
/// unprocessed.
pub open spec fn pump_spec<M: EventHandler>(
    modes: Map<Seq<char>, M::V>,
    active: Option<Seq<char>>,
    events: Seq<Event>,
) -> (Map<Seq<char>, M::V>, Result<(), CoreError>)
    decreases events.len(),
{
    if events.len() == 0 {
        (modes, Ok(()))
    } else {
        let (m2, r) = handle_event_spec::<M>(modes, active, events[0]);
        if r is Err {
            (m2, r)
        } else {
            pump_spec::<M>(m2, active, events.drop_first())
        }
    }
}

/// How many events pumping a sequence consumes: all of them, or everything
/// up to and including the first event whose handling fails.
pub open spec fn pump_consumed<M: EventHandler>(
    modes: Map<Seq<char>, M::V>,
    active: Option<Seq<char>>,
    events: Seq<Event>,
) -> int
    decreases events.len(),
{
    if events.len() == 0 {
        0
    } else {
        let (m2, r) = handle_event_spec::<M>(modes, active, events[0]);
        if r is Err {
            1
        } else {
            1 + pump_consumed::<M>(m2, active, events.drop_first())
        }
    }
}

/// Pumping touches only the active mode: where every dispatch succeeds, the
/// pump's one effect on the mapping is to run the whole event sequence
/// through the active mode.
pub proof fn lemma_pump_runs_the_active_mode<M: EventHandler>(
    modes: Map<Seq<char>, M::V>,
    name: Seq<char>,
    events: Seq<Event>,
)
    requires
        modes.contains_key(name),
        pump_spec::<M>(modes, Some(name), events).1 is Ok,
    ensures
        pump_spec::<M>(modes, Some(name), events).0 == modes.insert(
            name,
            run_mode::<M>(modes[name], events),
        ),
    decreases events.len(),
{
    if events.len() == 0 {
        assert(modes.insert(name, modes[name]) =~= modes);
    } else {
        let (m1, r) = dispatch_spec::<M>(modes[name], events[0]);
        let modes2 = modes.insert(name, m1);
        lemma_pump_runs_the_active_mode::<M>(modes2, name, events.drop_first());
        assert(modes2.insert(name, run_mode::<M>(m1, events.drop_first())) =~= modes.insert(
            name,
            run_mode::<M>(modes[name], events),
        ));
    }
}

/// What [`Application::spin`] does: with no active mode it reports
/// [`CoreError::NoActiveMode`] and changes nothing; otherwise it pumps the
/// source's events.
pub open spec fn spin_spec<M: EventHandler>(
    modes: Map<Seq<char>, M::V>,
    active: Option<Seq<char>>,
    events: Seq<Event>,
) -> (Map<Seq<char>, M::V>, Result<(), CoreError>) {
    if active is None {
        (modes, Err(CoreError::NoActiveMode))
    } else {
        pump_spec::<M>(modes, active, events)
    }
}

/// The mode registry: an ordered collection of uniquely named modes and the
/// name of the active one, if any.
pub struct Application<M: EventHandler> {
    application_modes: Vec<(String, M)>,
    active_application_mode: Option<String>,
}

impl<M: EventHandler> Application<M> {
    /// The mapping from registered names to the models of their modes.
    pub closed spec fn modes_map(&self) -> Map<Seq<char>, M::V> {
        map_of(self.application_modes@)
    }

    /// The name of the active mode, if one is set.
    pub closed spec fn active_name(&self) -> Option<Seq<char>> {
        match self.active_application_mode {
            Some(ref n) => Some(n@),
            None => None,
        }
    }

    /// Well-formedness: registered names are unique, and the active name,
    /// when set, is registered.
    pub closed spec fn wf(&self) -> bool {
        &&& unique_keys(self.application_modes@)
        &&& registry_invariant(self.modes_map(), self.active_name())
    }

    /// A well-formed registry satisfies the registry invariant.
    pub proof fn lemma_wf_implies_registry_invariant(&self)
        requires
            self.wf(),
        ensures
            registry_invariant(self.modes_map(), self.active_name()),
    {
    }

    /// An empty registry with no active mode.
    pub fn new() -> (app: Application<M>)
        ensures
            app.wf(),
            app.modes_map() == Map::<Seq<char>, M::V>::empty(),
            app.active_name() is None,
    {
        Application { application_modes: Vec::new(), active_application_mode: None }
    }

    /// The index of the entry carrying `name`, if any.
    fn find_index(&self, name: &String) -> (r: Option<usize>)
        ensures
            match r {
                Some(i) => i < self.application_modes@.len() && self.application_modes@[
                    i as int
                ].0@ == name@,
                None => forall|j: int|
                    0 <= j < self.application_modes@.len() ==> self.application_modes@[j].0@
                        != name@,
            },
    {
        let mut i: usize = 0;
        while i < self.application_modes.len()
            invariant
                i <= self.application_modes@.len(),
                forall|j: int| 0 <= j < i ==> self.application_modes@[j].0@ != name@,
            decreases self.application_modes@.len() - i,
        {
            if self.application_modes[i].0 == *name {
                return Some(i);
            }
            i = i + 1;
        }
        None
    }

    /// Registers a mode under a name, taking ownership of it; a name that is
    /// already registered is refused and the mode registry is unchanged.
    pub fn add_application_mode(&mut self, name: &str, application_mode: M) -> (r: Result<
        (),
        CoreError,
    >)
        requires
            old(self).wf(),
        ensures
            final(self).wf(),
            (final(self).modes_map(), final(self).active_name()) == apply_registry_op(
                old(self).modes_map(),
                old(self).active_name(),
                RegistryOp::Add { name: name@, mode: application_mode@ },
            ),
            r == Ok::<(), CoreError>(()) <==> !old(self).modes_map().contains_key(name@),
            r is Err ==> r == Err::<(), CoreError>(CoreError::DuplicateName),
    {
        let owned = name.to_owned();
        proof {
            lemma_map_of_contains(self.application_modes@, name@);
        }
        match self.find_index(&owned) {
            Some(_) => Err(CoreError::DuplicateName),
            None => {
                proof {
                    lemma_map_of_push(
                        self.application_modes@,
                        (owned, application_mode),
                    );
                }
                self.application_modes.push((owned, application_mode));
                Ok(())
            },
        }
    }

    /// Unregisters the named mode and returns ownership of it to the caller;
    /// the active mode cannot be removed, and an unknown name is refused.
    pub fn remove_application_mode(&mut self, name: &str) -> (r: Result<M, CoreError>)
        requires
            old(self).wf(),
        ensures
            final(self).wf(),
            (final(self).modes_map(), final(self).active_name()) == apply_registry_op(
                old(self).modes_map(),
                old(self).active_name(),
                RegistryOp::Remove::<M::V> { name: name@ },
            ),
            old(self).active_name() == Some(name@) ==> r == Err::<M, CoreError>(
                CoreError::ActiveModeInUse,
            ),
            old(self).active_name() != Some(name@) && !old(self).modes_map().contains_key(name@)
                ==> r == Err::<M, CoreError>(CoreError::NotFound),
            old(self).active_name() != Some(name@) && old(self).modes_map().contains_key(name@)
                ==> (r matches Ok(m) && m@ == old(self).modes_map()[name@]),
    {
        let owned = name.to_owned();
        let is_active = match &self.active_application_mode {
            Some(active) => *active == owned,
            None => false,
        };
        if is_active {
            return Err(CoreError::ActiveModeInUse);
        }
        proof {
            lemma_map_of_contains(self.application_modes@, name@);
        }
        match self.find_index(&owned) {
            Some(i) => {
                proof {
                    lemma_map_of_index(self.application_modes@, i as int);
                    lemma_map_of_remove(self.application_modes@, i as int);
                }
                let entry = self.application_modes.remove(i);
                Ok(entry.1)
            },
            None => Err(CoreError::NotFound),
        }
    }

    /// A borrow of the named mode, or `None` where the name is not registered.
    pub fn get_application_mode(&self, name: &str) -> (r: Option<&M>)
        requires
            self.wf(),
        ensures
            match r {
                Some(m) => self.modes_map().contains_key(name@) && m@ == self.modes_map()[name@],
                None => !self.modes_map().contains_key(name@),
            },
    {
        let owned = name.to_owned();
        proof {
            lemma_map_of_contains(self.application_modes@, name@);
        }
        match self.find_index(&owned) {
            Some(i) => {
                proof {
                    lemma_map_of_index(self.application_modes@, i as int);
                }
                Some(&self.application_modes[i].1)
            },
            None => None,
        }
    }

    /// A borrow of the active mode, resolved through the stored active name,
    /// or `None` where no mode is active.
    pub fn get_active_application_mode(&self) -> (r: Option<&M>)
        requires
            self.wf(),
        ensures
            match self.active_name() {
                Some(n) => r matches Some(m) && m@ == self.modes_map()[n],
                None => r is None,
            },
    {
        let active = match &self.active_application_mode {
            Some(n) => n.clone(),
            None => {
                return None;
            },
        };
        proof {
            lemma_map_of_contains(self.application_modes@, active@);
        }
        match self.find_index(&active) {
            Some(i) => {
                proof {
                    lemma_map_of_index(self.application_modes@, i as int);
                }
                Some(&self.application_modes[i].1)
            },
            None => {
                // Unreachable: the invariant places the active name in the
                // list, so the search cannot miss.
                proof {
                    assert(false);
                }
                None
            },
        }
    }

    /// Makes the named mode the active one; the name of the mode that is
    /// already active is refused, as is an unknown name.
    pub fn set_active_application_mode(&mut self, name: &str) -> (r: Result<(), CoreError>)
        requires
            old(self).wf(),
        ensures
            final(self).wf(),
            (final(self).modes_map(), final(self).active_name()) == apply_registry_op(
                old(self).modes_map(),
                old(self).active_name(),
                RegistryOp::Activate::<M::V> { name: name@ },
            ),
            old(self).active_name() == Some(name@) ==> r == Err::<(), CoreError>(CoreError::AlreadyActive),
            old(self).active_name() != Some(name@) && !old(self).modes_map().contains_key(name@)
                ==> r == Err::<(), CoreError>(CoreError::NotFound),
            r == Ok::<(), CoreError>(()) <==> (old(self).active_name() != Some(name@) && old(
                self,
            ).modes_map().contains_key(name@)),
    {
        let owned = name.to_owned();
        let is_active = match &self.active_application_mode {
            Some(active) => *active == owned,
            None => false,
        };
        if is_active {
            return Err(CoreError::AlreadyActive);
        }
        proof {
            lemma_map_of_contains(self.application_modes@, name@);
        }
        match self.find_index(&owned) {
            Some(_) => {
                self.active_application_mode = Some(owned);
                Ok(())
            },
            None => Err(CoreError::NotFound),
        }
    }

    /// Forwards one event to the active mode's dispatcher and returns the
    /// dispatcher's result; with no active mode the event is not handled and
    /// [`CoreError::NoActiveModeDuringEvent`] is reported.
    pub fn handle_event(&mut self, event: &Event) -> (r: Result<(), CoreError>)
        requires
            old(self).wf(),
        ensures
            final(self).wf(),
            final(self).active_name() == old(self).active_name(),
            (final(self).modes_map(), r) == handle_event_spec::<M>(
                old(self).modes_map(),
                old(self).active_name(),
                *event,
            ),
    {
        let active = match &self.active_application_mode {
            Some(n) => n.clone(),
            None => {
                return Err(CoreError::NoActiveModeDuringEvent);
            },
        };
        proof {
            lemma_map_of_contains(self.application_modes@, active@);
        }
        match self.find_index(&active) {
            Some(i) => {
                proof {
                    lemma_map_of_index(self.application_modes@, i as int);
                }
                let ghost pre_list = self.application_modes@;
                let r = dispatch(&mut self.application_modes[i].1, event);
                proof {
                    assert(self.application_modes@ =~= pre_list.update(
                        i as int,
                        self.application_modes@[i as int],
                    ));
                    lemma_map_of_update(
                        pre_list,
                        i as int,
                        self.application_modes@[i as int],
                    );
                }
                r
            },
            None => {
                // Unreachable for a well-formed registry; kept as the
                // defensive answer the pump's contract describes.
                proof {
                    assert(false);
                }
                Err(CoreError::NoActiveModeDuringEvent)
            },
        }
    }

    /// Fetches the next event from the source, if it has one left.
    pub fn next<S: EventSource>(&mut self, source: &mut S) -> (r: Option<Event>)
        ensures
            *final(self) == *old(self),
            match r {
                Some(e) => {
                    &&& old(source).remaining().len() > 0
                    &&& e == old(source).remaining()[0]
                    &&& final(source).remaining() == old(source).remaining().drop_first()
                },
                None => {
                    &&& old(source).remaining().len() == 0
                    &&& final(source).remaining().len() == 0
                },
            },
    {
        source.next_event()
    }

    /// Processes events from the source until it is exhausted or a dispatch
    /// fails: events are handled strictly in order, the first error stops the
    /// pump at once, and starting with no active mode is refused.
    pub fn spin<S: EventSource>(&mut self, source: &mut S) -> (r: Result<(), CoreError>)
        requires
            old(self).wf(),
        ensures
            final(self).wf(),
            final(self).active_name() == old(self).active_name(),
            (final(self).modes_map(), r) == spin_spec::<M>(
                old(self).modes_map(),
                old(self).active_name(),
                old(source).remaining(),
            ),
            old(self).active_name() is None ==> final(source).remaining() == old(
                source,
            ).remaining(),
            old(self).active_name() is Some ==> final(source).remaining() == old(
                source,
            ).remaining().skip(
                pump_consumed::<M>(
                    old(self).modes_map(),
                    old(self).active_name(),
                    old(source).remaining(),
                ),
            ),
            r is Ok ==> final(source).remaining().len() == 0,
    {
        if self.active_application_mode.is_none() {
            return Err(CoreError::NoActiveMode);
        }
        let ghost m0 = self.modes_map();
        let ghost a0 = self.active_name();
        let ghost evs0 = source.remaining();
        let ghost mut consumed: int = 0;
        proof {
            assert(evs0.skip(0) =~= evs0);
        }
        loop
            invariant
                m0 == old(self).modes_map(),
                a0 == old(self).active_name(),
                evs0 == old(source).remaining(),
                self.wf(),
                self.active_name() == a0,
                a0 is Some,
                0 <= consumed <= evs0.len(),
                source.remaining() == evs0.skip(consumed),
                pump_spec::<M>(m0, a0, evs0) == pump_spec::<M>(
                    self.modes_map(),
                    a0,
                    source.remaining(),
                ),
                pump_consumed::<M>(m0, a0, evs0) == consumed + pump_consumed::<M>(
                    self.modes_map(),
                    a0,
                    source.remaining(),
                ),
            ensures
                self.wf(),
                self.active_name() == a0,
                source.remaining().len() == 0,
                pump_spec::<M>(m0, a0, evs0) == (self.modes_map(), Ok::<(), CoreError>(())),
                source.remaining() == evs0.skip(pump_consumed::<M>(m0, a0, evs0)),
            decreases source.remaining().len(),
        {
            let ghost pre_map = self.modes_map();
            let ghost pre_events = source.remaining();
            match self.next(source) {
                None => {
                    break;
                },
                Some(event) => {
                    proof {
                        assert(pre_events.drop_first() =~= evs0.skip(consumed + 1));
                        consumed = consumed + 1;
                    }
                    let r = self.handle_event(&event);
                    if let Err(e) = r {
                        proof {
                            assert(pump_spec::<M>(pre_map, a0, pre_events) == (
                                self.modes_map(),
                                Err::<(), CoreError>(e),
                            ));
                            assert(pump_consumed::<M>(pre_map, a0, pre_events) == 1);
                        }
                        return Err(e);
                    }
                },
            }
        }
        Ok(())
    }
}

} // verus!
