//! The named-entity upsert orchestrator.
//!
//! `Entry` composes load, insert, and conflict-aware update into one
//! load-or-insert-or-update workflow with a bounded retry budget.  The
//! algorithm exists once, as an explicit state machine: the blocking
//! [`Entry::execute`] drives it to completion against a connection, and a
//! suspend/resume scheduler drives the identical transitions through
//! [`Entry::start`] and [`Entry::step`], performing one connection-boundary
//! call per suspension point.

use vstd::prelude::*;
use crate::connection::Connection;
use crate::document::{Document, DocumentId, Header};
use crate::error::Error;

verus! {

/// A reference identifying a document either by a human-assigned unique
/// name, by its id, or by its primary key directly.  `Name` requires one
/// indexed lookup to resolve; the others require none.
#[derive(Debug, PartialEq, Eq)]
pub enum NamedReference {
    /// An entity's unique name.
    Name(String),
    /// A document id.
    Id(DocumentId),
    /// A primary key.
    Key(u64),
}

impl NamedReference {
    /// Converts this reference into one that owns its name.  References
    /// here always own their name already, so the value is unchanged.
    pub fn into_owned(self) -> (r: NamedReference)
        ensures
            r == self,
    {
        self
    }

    /// Returns a copy of this reference.
    pub fn duplicate(&self) -> (r: NamedReference)
        ensures
            r == *self,
    {
        match self {
            NamedReference::Name(n) => NamedReference::Name(n.clone()),
            NamedReference::Id(id) => NamedReference::Id(*id),
            NamedReference::Key(k) => NamedReference::Key(*k),
        }
    }

    /// Resolves this reference to a document id.  `Id` and `Key` resolve
    /// with no lookup; `Name` queries the unique-name view and takes the
    /// first matching document.
    pub fn id<C: Connection>(&self, connection: &C) -> (r: Result<Option<DocumentId>, Error>)
        ensures
            self matches NamedReference::Id(i) ==> r == Ok::<Option<DocumentId>, Error>(
                Some(*i),
            ),
            self matches NamedReference::Key(k) ==> r == Ok::<Option<DocumentId>, Error>(
                Some(DocumentId(*k)),
            ),
    {
        match self {
            NamedReference::Name(n) => match connection.query_unique_name(n) {
                Ok(Some(doc)) => Ok(Some(doc.id)),
                Ok(None) => Ok(None),
                Err(e) => Err(e),
            },
            NamedReference::Id(id) => Ok(Some(*id)),
            NamedReference::Key(k) => Ok(Some(DocumentId(*k))),
        }
    }
}

/// A value usable as a reference into a collection with a unique name.
pub trait Nameable {
    /// Returns this value as a [`NamedReference`].
    fn name(self) -> Result<NamedReference, Error>;
}

impl Nameable for NamedReference {
    fn name(self) -> (r: Result<NamedReference, Error>)
        ensures
            r == Ok::<NamedReference, Error>(self),
    {
        Ok(self)
    }
}

impl Nameable for String {
    fn name(self) -> (r: Result<NamedReference, Error>)
        ensures
            r == Ok::<NamedReference, Error>(NamedReference::Name(self)),
    {
        Ok(NamedReference::Name(self))
    }
}

impl Nameable for DocumentId {
    fn name(self) -> (r: Result<NamedReference, Error>)
        ensures
            r == Ok::<NamedReference, Error>(NamedReference::Id(self)),
    {
        Ok(NamedReference::Id(self))
    }
}

impl Nameable for u64 {
    fn name(self) -> (r: Result<NamedReference, Error>)
        ensures
            r == Ok::<NamedReference, Error>(NamedReference::Key(self)),
    {
        Ok(NamedReference::Key(self))
    }
}

/// Resolves `reference` to an existing document over `connection`.
/// Absence is an explicit empty result, never an error.
pub fn load<C: Connection>(reference: &NamedReference, connection: &C) -> (r: Result<
    Option<Document>,
    Error,
>)
    ensures
        reference matches NamedReference::Id(i) ==> (r matches Ok(Some(d)) ==> d@.id == *i),
        reference matches NamedReference::Key(k) ==> (r matches Ok(Some(d)) ==> d@.id
            == DocumentId(*k)),
{
    match reference {
        NamedReference::Name(n) => connection.query_unique_name(n),
        NamedReference::Id(id) => connection.get(*id),
        NamedReference::Key(k) => connection.get(DocumentId(*k)),
    }
}

/// The insert-producer of an entry: invoked at most once, when the target
/// document is absent, to produce the contents of the document to create.
pub trait EntryInsert {
    /// The contents the producer yields.  The default says the producer
    /// yields empty contents; an implementation proved against a real
    /// producer overrides it with the contents actually produced.
    open spec fn produce_spec(&self) -> Seq<u8> {
        Seq::empty()
    }

    /// Produces the contents of the document to insert.
    fn call(self) -> (r: Vec<u8>)
        ensures
            r@ == self.produce_spec(),
    ;
}

/// The placeholder insert-producer of an entry configured without one; it
/// is never invoked, and yields empty contents.
impl EntryInsert for () {
    fn call(self) -> (r: Vec<u8>) {
        Vec::new()
    }
}

/// The update-mutator of an entry: applied to the freshly loaded contents
/// before every conditioned write attempt, at most `retry budget + 1`
/// times in all.
pub trait EntryUpdate {
    /// The contents the mutator leaves behind, as a function of the
    /// contents it was given.  The default says the mutator leaves the
    /// contents unchanged; an implementation proved against a real
    /// mutator overrides it with the effect actually applied.
    open spec fn apply_spec(&self, contents: Seq<u8>) -> Seq<u8> {
        contents
    }

    /// Mutates `contents` in place.
    fn call(&self, contents: &mut Vec<u8>)
        ensures
            final(contents)@ == self.apply_spec(old(contents)@),
    ;
}

/// The placeholder update-mutator of an entry configured without one; it
/// is never invoked, and leaves contents unchanged.
impl EntryUpdate for () {
    fn call(&self, contents: &mut Vec<u8>) {
    }
}

/// The explicit state of an entry: pending until started, then suspended
/// at a connection-boundary call, resolved once the workflow has finished,
/// and finished once the result has been taken.
pub enum EntryState<EI, EU> {
    /// Not yet started; the configuration can still be changed.
    Pending {
        /// The reference to resolve.
        name: NamedReference,
        /// The insert-producer, if one is configured.
        insert: Option<EI>,
        /// The update-mutator, if one is configured.
        update: Option<EU>,
        /// How many times a conflicted write may be retried.
        retry_limit: usize,
    },
    /// Awaiting the initial load of the referenced document.
    Loading {
        /// The insert-producer, if one is configured.
        insert: Option<EI>,
        /// The update-mutator, if one is configured.
        update: Option<EU>,
        /// The retries that remain.
        attempts_left: usize,
    },
    /// Awaiting the outcome of a conditioned write.
    Updating {
        /// The update-mutator, for further attempts.
        update: EU,
        /// The retries that remain.
        attempts_left: usize,
        /// The document submitted for writing: the loaded revision with
        /// the mutated contents.
        submitted: Document,
    },
    /// Awaiting the reload of the document after a conflict.
    Reloading {
        /// The update-mutator, to apply to the reloaded contents.
        update: EU,
        /// The retries that remain.
        attempts_left: usize,
    },
    /// Awaiting the outcome of pushing a produced document.
    Inserting {
        /// The produced contents being pushed.
        contents: Vec<u8>,
    },
    /// The workflow has finished with this result.
    Resolved(Result<Option<Document>, Error>),
    /// The result has been taken.
    Finished,
}

/// What the driver of an entry must do next: perform the action across the
/// connection boundary and hand the outcome back to [`Entry::step`].
#[derive(Debug)]
pub enum EntryAction {
    /// Resolve the reference (via [`load`]) and report `Loaded`.
    Load(NamedReference),
    /// Submit the conditioned write and report `Written`.
    Write(Document),
    /// Push the contents as a new document and report `Pushed`.
    Insert(Vec<u8>),
    /// The workflow has resolved; take the result.
    Finish,
}

/// The outcome of the connection-boundary call an action asked for.
pub enum EntryEvent {
    /// The outcome of a `Load` action.
    Loaded(Result<Option<Document>, Error>),
    /// The outcome of a `Write` action.
    Written(Result<Header, Error>),
    /// The outcome of an `Insert` action.
    Pushed(Result<Header, Error>),
}

/// The load-or-insert-or-update workflow for one named entity, constructed
/// per call and discarded after resolution.  Within one entry, steps are
/// strictly sequential; concurrent entries racing on the same document are
/// arbitrated only by the store's revision compare-and-swap.
#[must_use]
pub struct Entry<EI: EntryInsert, EU: EntryUpdate> {
    state: EntryState<EI, EU>,
    applied: Ghost<int>,
    produced: Ghost<int>,
    budget: Ghost<int>,
}

impl Entry<(), ()> {
    /// Configures a workflow for the entity `name` refers to: it resolves
    /// to the existing document, and does nothing further until an
    /// insert-producer or update-mutator is configured.
    pub fn new(name: NamedReference) -> (r: Entry<(), ()>)
        ensures
            r.state() == (EntryState::<(), ()>::Pending {
                name,
                insert: None,
                update: None,
                retry_limit: 0,
            }),
            r.wf(),
    {
        Entry {
            state: EntryState::Pending { name, insert: None, update: None, retry_limit: 0 },
            applied: Ghost(0),
            produced: Ghost(0),
            budget: Ghost(0),
        }
    }

}

impl<EI: EntryInsert, EU: EntryUpdate> Entry<EI, EU> {
    /// The explicit state of the workflow.
    pub closed spec fn state(&self) -> EntryState<EI, EU> {
        self.state
    }

    /// Whether the workflow has not been started.
    pub open spec fn is_pending(&self) -> bool {
        self.state() is Pending
    }

    /// Whether the workflow is suspended at a connection-boundary call.
    pub open spec fn is_busy(&self) -> bool {
        self.state() is Loading || self.state() is Updating || self.state() is Reloading
            || self.state() is Inserting
    }

    /// Whether the workflow has finished and holds its result.
    pub open spec fn is_resolved(&self) -> bool {
        self.state() is Resolved
    }

    /// The result of a resolved workflow.
    pub closed spec fn resolution(&self) -> Result<Option<Document>, Error>
        recommends
            self.is_resolved(),
    {
        self.state()->Resolved_0
    }

    /// How many times the update-mutator has been invoked so far.
    pub closed spec fn mutations_applied(&self) -> int {
        self.applied@
    }

    /// How many times the insert-producer has been invoked so far.
    pub closed spec fn insertions_produced(&self) -> int {
        self.produced@
    }

    /// The configured retry budget, once the workflow has started.
    pub closed spec fn retry_budget(&self) -> int {
        self.budget@
    }

    /// The bookkeeping invariant tying the invocation counters to the
    /// state: the mutator runs once before every write attempt and the
    /// budget pays for each retry, so it runs at most `budget + 1` times;
    /// the producer runs at most once.
    pub closed spec fn wf(&self) -> bool {
        &&& self.applied@ >= 0
        &&& self.produced@ >= 0
        &&& self.budget@ >= 0
        &&& match self.state {
            EntryState::Pending { .. } => self.applied@ == 0 && self.produced@ == 0,
            EntryState::Loading { attempts_left, .. } => self.applied@ == 0 && self.produced@ == 0
                && attempts_left == self.budget@,
            EntryState::Updating { attempts_left, .. } => self.produced@ == 0 && self.applied@
                == self.budget@ - attempts_left + 1 && attempts_left <= self.budget@,
            EntryState::Reloading { attempts_left, .. } => self.produced@ == 0 && self.applied@
                == self.budget@ - attempts_left && attempts_left <= self.budget@,
            EntryState::Inserting { .. } => self.applied@ == 0 && self.produced@ == 1,
            EntryState::Resolved(_) => self.applied@ <= self.budget@ + 1 && self.produced@ <= 1,
            EntryState::Finished => self.applied@ <= self.budget@ + 1 && self.produced@ <= 1,
        }
    }

    /// A bound that shrinks with every transition the driver can take,
    /// which is why every drive of the workflow terminates.
    pub closed spec fn measure(&self) -> int {
        match self.state {
            EntryState::Pending { retry_limit, .. } => 2 * retry_limit + 6,
            EntryState::Loading { attempts_left, .. } => 2 * attempts_left + 5,
            EntryState::Updating { attempts_left, .. } => 2 * attempts_left + 3,
            EntryState::Reloading { attempts_left, .. } => 2 * attempts_left + 4,
            EntryState::Inserting { .. } => 1,
            EntryState::Resolved(_) => 0,
            EntryState::Finished => 0,
        }
    }

    /// Bounded work: however the store behaves, a well-formed entry has
    /// invoked its update-mutator at most `retry budget + 1` times and its
    /// insert-producer at most once.
    pub proof fn lemma_bounded_invocations(&self)
        requires
            self.wf(),
        ensures
            self.mutations_applied() <= self.retry_budget() + 1,
            self.insertions_produced() <= 1,
    {
    }

    /// Configures `cb` to be invoked, once, to produce an initial document
    /// if no document exists; that document is saved before being
    /// returned.
    pub fn or_insert_with<F: EntryInsert>(self, cb: F) -> (r: Entry<F, EU>)
        requires
            self.is_pending(),
        ensures
            r.state() matches EntryState::Pending { name, insert, update, retry_limit } && {
                &&& self.state() matches EntryState::Pending {
                    name: old_name,
                    update: old_update,
                    retry_limit: old_limit,
                    ..
                }
                &&& name == old_name
                &&& insert == Some(cb)
                &&& update == old_update
                &&& retry_limit == old_limit
            },
            r.wf(),
    {
        match self.state {
            EntryState::Pending { name, update, retry_limit, .. } => Entry {
                state: EntryState::Pending { name, insert: Some(cb), update, retry_limit },
                applied: Ghost(0),
                produced: Ghost(0),
                budget: Ghost(0),
            },
            _ => unreached(),
        }
    }

    /// Configures `cb` to be applied to the stored contents before the
    /// value is saved back.  After a conflict, `cb` is applied again to
    /// the freshly reloaded contents, up to the retry limit.
    pub fn update_with<F: EntryUpdate>(self, cb: F) -> (r: Entry<EI, F>)
        requires
            self.is_pending(),
        ensures
            r.state() matches EntryState::Pending { name, insert, update, retry_limit } && {
                &&& self.state() matches EntryState::Pending {
                    name: old_name,
                    insert: old_insert,
                    retry_limit: old_limit,
                    ..
                }
                &&& name == old_name
                &&& insert == old_insert
                &&& update == Some(cb)
                &&& retry_limit == old_limit
            },
            r.wf(),
    {
        match self.state {
            EntryState::Pending { name, insert, retry_limit, .. } => Entry {
                state: EntryState::Pending { name, insert, update: Some(cb), retry_limit },
                applied: Ghost(0),
                produced: Ghost(0),
                budget: Ghost(0),
            },
            _ => unreached(),
        }
    }

    /// Sets the number of times a conflicted update may be retried before
    /// the conflict is surfaced.
    pub fn retry_limit(self, attempts: usize) -> (r: Self)
        requires
            self.is_pending(),
        ensures
            r.state() matches EntryState::Pending { name, insert, update, retry_limit } && {
                &&& self.state() matches EntryState::Pending {
                    name: old_name,
                    insert: old_insert,
                    update: old_update,
                    ..
                }
                &&& name == old_name
                &&& insert == old_insert
                &&& update == old_update
                &&& retry_limit == attempts
            },
            r.wf(),
    {
        match self.state {
            EntryState::Pending { name, insert, update, .. } => Entry {
                state: EntryState::Pending { name, insert, update, retry_limit: attempts },
                applied: Ghost(0),
                produced: Ghost(0),
                budget: Ghost(0),
            },
            _ => unreached(),
        }
    }

    /// Starts the workflow: the driver must resolve the returned
    /// reference and report the outcome to [`Self::step`].
    pub fn start(&mut self) -> (a: EntryAction)
        requires
            old(self).is_pending(),
            old(self).wf(),
        ensures
            final(self).wf(),
            old(self).state() matches EntryState::Pending { name, insert, update, retry_limit }
                ==> {
                &&& a == EntryAction::Load(name)
                &&& final(self).state() == (EntryState::<EI, EU>::Loading {
                    insert,
                    update,
                    attempts_left: retry_limit,
                })
                &&& final(self).retry_budget() == retry_limit
                &&& final(self).mutations_applied() == 0
                &&& final(self).insertions_produced() == 0
            },
            final(self).measure() < old(self).measure(),
    {
        let mut taken = EntryState::Resolved(Ok(None));
        core::mem::swap(&mut taken, &mut self.state);
        match taken {
            EntryState::Pending { name, insert, update, retry_limit } => {
                self.budget = Ghost(retry_limit as int);
                self.state = EntryState::Loading { insert, update, attempts_left: retry_limit };
                EntryAction::Load(name)
            },
            _ => unreached(),
        }
    }

    /// Whether `event` reports the outcome of the call the current state
    /// is suspended at.
    pub open spec fn expects(&self, event: EntryEvent) -> bool {
        match self.state() {
            EntryState::Loading { .. } => event is Loaded,
            EntryState::Reloading { .. } => event is Loaded,
            EntryState::Updating { .. } => event is Written,
            EntryState::Inserting { .. } => event is Pushed,
            _ => false,
        }
    }

    /// Resumes the workflow with the outcome of the last action and
    /// returns the next one.  This is the transition function both
    /// execution models share; its cases follow the upsert algorithm:
    ///
    /// - a loaded document with a mutator configured is mutated and
    ///   submitted for a conditioned write under its loaded revision;
    /// - a loaded document with no mutator resolves as-is, with no write
    ///   issued;
    /// - an absent document invokes the insert-producer once, or resolves
    ///   empty;
    /// - a committed write resolves to the submitted contents under the
    ///   committed revision;
    /// - a conflicted write consumes one retry and reloads by id, or
    ///   surfaces the conflict once the budget is exhausted;
    /// - a document deleted between conflict and reload resolves empty;
    /// - every other error aborts immediately and is surfaced untouched.
    pub fn step(&mut self, event: EntryEvent) -> (a: EntryAction)
        requires
            old(self).is_busy(),
            old(self).wf(),
            old(self).expects(event),
        ensures
            final(self).wf(),
            final(self).retry_budget() == old(self).retry_budget(),
            final(self).measure() < old(self).measure(),
            a is Finish <==> final(self).is_resolved(),
            final(self).is_busy() || final(self).is_resolved(),
            a is Load ==> final(self).state() is Reloading,
            a is Write ==> final(self).state() is Updating,
            a is Insert ==> final(self).state() is Inserting,
            final(self).mutations_applied() == old(self).mutations_applied() + (
                if final(self).state() is Updating {
                    1int
                } else {
                    0int
                }
            ),
            final(self).insertions_produced() == old(self).insertions_produced() + (
                if final(self).state() is Inserting {
                    1int
                } else {
                    0int
                }
            ),
            // Initial load completed.
            old(self).state() matches EntryState::Loading { insert, update, attempts_left }
                ==> match event {
                EntryEvent::Loaded(res) => match res {
                    Ok(Some(doc)) => match update {
                        Some(u) => {
                            &&& final(self).state() matches EntryState::Updating {
                                update: u2,
                                attempts_left: a2,
                                submitted,
                            }
                            &&& u2 == u
                            &&& a2 == attempts_left
                            &&& submitted@.id == doc@.id
                            &&& submitted@.revision == doc@.revision
                            &&& submitted@.contents == u.apply_spec(doc@.contents)
                            &&& a matches EntryAction::Write(w) && w@ == submitted@
                            &&& final(self).mutations_applied() == 1
                        },
                        None => {
                            &&& final(self).is_resolved()
                            &&& final(self).resolution() == Ok::<Option<Document>, Error>(
                                Some(doc),
                            )
                            &&& final(self).mutations_applied() == 0
                        },
                    },
                    Ok(None) => match insert {
                        Some(ins) => {
                            &&& final(self).state() matches EntryState::Inserting { contents }
                            &&& contents@ == ins.produce_spec()
                            &&& a matches EntryAction::Insert(c) && c@ == ins.produce_spec()
                            &&& final(self).insertions_produced() == 1
                        },
                        None => final(self).is_resolved() && final(self).resolution() == Ok::<
                            Option<Document>,
                            Error,
                        >(None) && final(self).insertions_produced() == 0,
                    },
                    Err(e) => final(self).is_resolved() && final(self).resolution() == Err::<
                        Option<Document>,
                        Error,
                    >(e),
                },
                _ => false,
            },
            // Conditioned write completed.
            old(self).state() matches EntryState::Updating { update, attempts_left, submitted }
                ==> match event {
                EntryEvent::Written(res) => match res {
                    Ok(h) => {
                        &&& final(self).state() matches EntryState::Resolved(r2)
                        &&& r2 matches Ok(Some(d))
                        &&& d@.id == submitted@.id
                        &&& d@.revision == h@.revision
                        &&& d@.contents == submitted@.contents
                    },
                    Err(e) => {
                        &&& (e matches Error::Conflict { header, .. } ==> attempts_left > 0 ==> {
                            &&& final(self).state() matches EntryState::Reloading {
                                update: u2,
                                attempts_left: a2,
                            }
                            &&& u2 == update
                            &&& a2 == attempts_left - 1
                            &&& a matches EntryAction::Load(n) && n == NamedReference::Id(
                                header@.id,
                            )
                        })
                        &&& (e matches Error::Conflict { .. } && attempts_left == 0
                            ==> final(self).is_resolved() && final(self).resolution() == Err::<
                            Option<Document>,
                            Error,
                        >(e))
                        &&& (!(e is Conflict) ==> final(self).is_resolved()
                            && final(self).resolution() == Err::<Option<Document>, Error>(e))
                    },
                },
                _ => false,
            },
            // Reload after a conflict completed.
            old(self).state() matches EntryState::Reloading { update, attempts_left }
                ==> match event {
                EntryEvent::Loaded(res) => match res {
                    Ok(Some(doc)) => {
                        &&& final(self).state() matches EntryState::Updating {
                            update: u2,
                            attempts_left: a2,
                            submitted,
                        }
                        &&& u2 == update
                        &&& a2 == attempts_left
                        &&& submitted@.id == doc@.id
                        &&& submitted@.revision == doc@.revision
                        &&& submitted@.contents == update.apply_spec(doc@.contents)
                        &&& a matches EntryAction::Write(w) && w@ == submitted@
                        &&& final(self).mutations_applied() == old(self).mutations_applied() + 1
                    },
                    Ok(None) => final(self).is_resolved() && final(self).resolution() == Ok::<
                        Option<Document>,
                        Error,
                    >(None),
                    Err(e) => final(self).is_resolved() && final(self).resolution() == Err::<
                        Option<Document>,
                        Error,
                    >(e),
                },
                _ => false,
            },
            // Push of the produced document completed.
            old(self).state() matches EntryState::Inserting { contents } ==> match event {
                EntryEvent::Pushed(res) => match res {
                    Ok(h) => {
                        &&& final(self).state() matches EntryState::Resolved(r2)
                        &&& r2 matches Ok(Some(d))
                        &&& d@.id == h@.id
                        &&& d@.revision == h@.revision
                        &&& d@.contents == contents@
                    },
                    Err(e) => final(self).is_resolved() && final(self).resolution() == Err::<
                        Option<Document>,
                        Error,
                    >(e),
                },
                _ => false,
            },
    {
        let mut taken = EntryState::Resolved(Ok(None));
        core::mem::swap(&mut taken, &mut self.state);
        match taken {
            EntryState::Loading { insert, update, attempts_left } => match event {
                EntryEvent::Loaded(res) => match res {
                    Ok(Some(doc)) => match update {
                        Some(u) => {
                            let Document { id, revision, contents } = doc;
                            let mut contents = contents;
                            u.call(&mut contents);
                            let submitted = Document { id, revision, contents };
                            let write = submitted.duplicate();
                            self.applied = Ghost(self.applied@ + 1);
                            self.state = EntryState::Updating {
                                update: u,
                                attempts_left,
                                submitted,
                            };
                            EntryAction::Write(write)
                        },
                        None => {
                            self.state = EntryState::Resolved(Ok(Some(doc)));
                            EntryAction::Finish
                        },
                    },
                    Ok(None) => match insert {
                        Some(ins) => {
                            let contents = ins.call();
                            let pushed = crate::bytes::copy_bytes(&contents);
                            self.produced = Ghost(self.produced@ + 1);
                            self.state = EntryState::Inserting { contents };
                            EntryAction::Insert(pushed)
                        },
                        None => {
                            self.state = EntryState::Resolved(Ok(None));
                            EntryAction::Finish
                        },
                    },
                    Err(e) => {
                        self.state = EntryState::Resolved(Err(e));
                        EntryAction::Finish
                    },
                },
                _ => unreached(),
            },
            EntryState::Updating { update, attempts_left, submitted } => match event {
                EntryEvent::Written(res) => match res {
                    Ok(h) => {
                        let doc = Document {
                            id: submitted.id,
                            revision: h.revision,
                            contents: submitted.contents,
                        };
                        self.state = EntryState::Resolved(Ok(Some(doc)));
                        EntryAction::Finish
                    },
                    Err(e) => match e {
                        Error::Conflict { collection, header } => {
                            if attempts_left > 0 {
                                let reload = header.id;
                                self.state = EntryState::Reloading {
                                    update,
                                    attempts_left: attempts_left - 1,
                                };
                                EntryAction::Load(NamedReference::Id(reload))
                            } else {
                                self.state = EntryState::Resolved(
                                    Err(Error::Conflict { collection, header }),
                                );
                                EntryAction::Finish
                            }
                        },
                        other => {
                            self.state = EntryState::Resolved(Err(other));
                            EntryAction::Finish
                        },
                    },
                },
                _ => unreached(),
            },
            EntryState::Reloading { update, attempts_left } => match event {
                EntryEvent::Loaded(res) => match res {
                    Ok(Some(doc)) => {
                        let Document { id, revision, contents } = doc;
                        let mut contents = contents;
                        update.call(&mut contents);
                        let submitted = Document { id, revision, contents };
                        let write = submitted.duplicate();
                        self.applied = Ghost(self.applied@ + 1);
                        self.state = EntryState::Updating { update, attempts_left, submitted };
                        EntryAction::Write(write)
                    },
                    Ok(None) => {
                        // The document was deleted between the conflict
                        // and the reload: an empty result, not an error.
                        self.state = EntryState::Resolved(Ok(None));
                        EntryAction::Finish
                    },
                    Err(e) => {
                        self.state = EntryState::Resolved(Err(e));
                        EntryAction::Finish
                    },
                },
                _ => unreached(),
            },
            EntryState::Inserting { contents } => match event {
                EntryEvent::Pushed(res) => match res {
                    Ok(h) => {
                        let doc = Document { id: h.id, revision: h.revision, contents };
                        self.state = EntryState::Resolved(Ok(Some(doc)));
                        EntryAction::Finish
                    },
                    Err(e) => {
                        self.state = EntryState::Resolved(Err(e));
                        EntryAction::Finish
                    },
                },
                _ => unreached(),
            },
            _ => unreached(),
        }
    }

    /// Returns the resolved result, consuming the workflow.
    pub fn take_result(self) -> (r: Result<Option<Document>, Error>)
        requires
            self.is_resolved(),
        ensures
            r == self.resolution(),
    {
        match self.state {
            EntryState::Resolved(r) => r,
            _ => unreached(),
        }
    }

    /// Executes the workflow to completion over `connection`, blocking at
    /// each connection-boundary call: the blocking counterpart of driving
    /// [`Self::start`] and [`Self::step`] from a scheduler, running the
    /// identical transitions.
    ///
    /// Whatever the store replies, the update-mutator has been invoked at
    /// most `retry limit + 1` times, each time on freshly loaded contents;
    /// the insert-producer at most once; and with no mutator configured no
    /// conditioned write is ever submitted.
    pub fn execute<C: Connection>(&mut self, connection: &mut C) -> (r: Result<
        Option<Document>,
        Error,
    >)
        requires
            old(self).is_pending(),
            old(self).wf(),
        ensures
            final(self).state() is Finished,
            final(self).wf(),
            old(self).state() matches EntryState::Pending { retry_limit, update, insert, .. }
                ==> {
                &&& final(self).retry_budget() == retry_limit
                &&& final(self).mutations_applied() <= retry_limit + 1
                &&& final(self).insertions_produced() <= 1
                &&& (update is None ==> final(self).mutations_applied() == 0)
                &&& (insert is None ==> final(self).insertions_produced() == 0)
            },
    {
        let ghost pending = old(self).state();
        let mut action = self.start();
        loop
            invariant
                pending == old(self).state(),
                self.wf(),
                self.is_busy() || self.is_resolved(),
                action is Finish <==> self.is_resolved(),
                action is Load ==> self.state() is Loading || self.state() is Reloading,
                action is Write ==> self.state() is Updating,
                action is Insert ==> self.state() is Inserting,
                pending matches EntryState::Pending { retry_limit, .. }
                    ==> self.retry_budget() == retry_limit,
                pending matches EntryState::Pending { update, insert, .. } ==> (self.state()
                    matches EntryState::Loading { update: u3, insert: i3, .. } ==> u3 == update
                    && i3 == insert),
                pending matches EntryState::Pending { update, .. } ==> (update is None
                    ==> self.mutations_applied() == 0 && !(self.state() is Updating) && !(
                    self.state() is Reloading)),
                pending matches EntryState::Pending { insert, .. } ==> (insert is None
                    ==> self.insertions_produced() == 0 && !(self.state() is Inserting)),
            decreases self.measure(),
        {
            match action {
                EntryAction::Finish => {
                    proof {
                        self.lemma_bounded_invocations();
                    }
                    let mut taken = EntryState::Finished;
                    core::mem::swap(&mut taken, &mut self.state);
                    match taken {
                        EntryState::Resolved(r) => {
                            return r;
                        },
                        _ => unreached(),
                    }
                },
                EntryAction::Load(reference) => {
                    let res = load(&reference, connection);
                    action = self.step(EntryEvent::Loaded(res));
                },
                EntryAction::Write(doc) => {
                    let res = connection.update(&doc);
                    action = self.step(EntryEvent::Written(res));
                },
                EntryAction::Insert(contents) => {
                    let res = connection.push(&contents);
                    action = self.step(EntryEvent::Pushed(res));
                },
            }
        }
    }
}

} // verus!
