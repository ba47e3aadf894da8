//! Atomic numeric key-value operations.
//!
//! An increment or decrement is one opaque command executed as a single
//! indivisible step on the store side: the client never reads and then
//! writes locally.  The builder configures the operation; interpreting the
//! store's reply is shared verified logic, used identically by the blocking
//! and the suspend/resume execution models.

use vstd::prelude::*;
use crate::error::Error;
use crate::numeric::{kind_of, Numeric, NumericKind};

verus! {

/// A command executed as one indivisible step on the store side.
pub enum Command {
    /// Adds `amount` to the stored value, clamping at the subtype's
    /// maximum when `saturating`, wrapping otherwise.
    Increment { amount: Numeric, saturating: bool },
    /// Subtracts `amount` from the stored value, clamping at the
    /// subtype's minimum when `saturating`, wrapping otherwise.
    Decrement { amount: Numeric, saturating: bool },
}

/// One atomic key-value operation: an optional namespace, a key, and the
/// command to execute.
pub struct KeyOperation {
    /// The namespace of the key, or the default namespace.
    pub namespace: Option<String>,
    /// The key the command operates on.
    pub key: String,
    /// The command to execute.
    pub command: Command,
}

/// A value held by the key-value store.
pub enum Value {
    /// A numeric value, operated on by increment and decrement commands.
    Numeric(Numeric),
    /// An opaque serialized value.
    Bytes(Vec<u8>),
}

/// The reply of the store to a key operation.
pub enum Output {
    /// The operation succeeded and returned no value.
    Success,
    /// The operation returned the value now held under the key, if any.
    Value(Option<Value>),
}

/// The connection capability for atomic key-value operations.  The store
/// executes each operation as one indivisible step; nothing is promised of
/// the reply here, since the store is shared with other writers — callers
/// interpret every possible reply through verified logic.
pub trait KeyValue {
    /// Executes `op` as a single indivisible step and returns the reply.
    fn execute_key_operation(&mut self, op: KeyOperation) -> Result<Output, Error>;
}

/// The numeric value a reply carries, if it is a numeric value of the
/// requested subtype.
pub open spec fn numeric_reply(output: Output, kind: NumericKind) -> Option<Numeric> {
    match output {
        Output::Value(Some(Value::Numeric(n))) => if kind_of(n) == kind {
            Some(n)
        } else {
            None
        },
        _ => None,
    }
}

/// Interprets the store's reply to an increment or decrement whose amount
/// was of subtype `kind`.  The reply must carry a numeric value of that
/// same subtype; anything else is a protocol violation and is fatal.
pub fn interpret_numeric_reply(output: Output, kind: NumericKind) -> (r: Result<Numeric, Error>)
    ensures
        match numeric_reply(output, kind) {
            Some(n) => r == Ok::<Numeric, Error>(n),
            None => r == Err::<Numeric, Error>(Error::TypeMismatch),
        },
{
    match output {
        Output::Value(opt) => match opt {
            Some(value) => match value {
                Value::Numeric(n) => {
                    let k = n.kind();
                    if k == kind {
                        Ok(n)
                    } else {
                        Err(Error::TypeMismatch)
                    }
                },
                Value::Bytes(_) => Err(Error::TypeMismatch),
            },
            None => Err(Error::TypeMismatch),
        },
        Output::Success => Err(Error::TypeMismatch),
    }
}

/// Configures an increment or decrement and executes it when asked,
/// blocking until the reply arrives.
#[must_use]
pub struct Builder {
    namespace: Option<String>,
    key: String,
    increment: bool,
    amount: Numeric,
    saturating: bool,
}

/// Whether `op` is the key operation a builder with the given
/// configuration issues.
pub open spec fn operation_matches(
    op: KeyOperation,
    namespace: Option<Seq<char>>,
    key: Seq<char>,
    increment: bool,
    amount: Numeric,
    saturating: bool,
) -> bool {
    &&& match op.namespace {
        Some(ns) => namespace matches Some(n) && n == ns@,
        None => namespace is None,
    }
    &&& op.key@ == key
    &&& op.command == if increment {
        Command::Increment { amount, saturating }
    } else {
        Command::Decrement { amount, saturating }
    }
}

impl Builder {
    /// The namespace the operation will run in.
    pub closed spec fn namespace(&self) -> Option<Seq<char>> {
        match self.namespace {
            Some(ref ns) => Some(ns@),
            None => None,
        }
    }

    /// The key the operation will target.
    pub closed spec fn key(&self) -> Seq<char> {
        self.key@
    }

    /// Whether the operation increments (rather than decrements).
    pub closed spec fn is_increment(&self) -> bool {
        self.increment
    }

    /// The amount the operation applies.
    pub closed spec fn amount(&self) -> Numeric {
        self.amount
    }

    /// Whether the operation saturates at the subtype's bounds.
    pub closed spec fn is_saturating(&self) -> bool {
        self.saturating
    }

    /// Configures an increment (`increment` true) or decrement of `key` by
    /// `amount`.  Saturating arithmetic is the default.
    pub fn new(
        namespace: Option<String>,
        increment: bool,
        key: String,
        amount: Numeric,
    ) -> (r: Builder)
        ensures
            r.namespace() == (match namespace {
                Some(ns) => Some::<Seq<char>>(ns@),
                None => None::<Seq<char>>,
            }),
            r.key() == key@,
            r.is_increment() == increment,
            r.amount() == amount,
            r.is_saturating(),
    {
        Builder { key, namespace, increment, amount, saturating: true }
    }

    /// Allows overflowing the value: the result wraps as native fixed-width
    /// arithmetic of the subtype does, instead of clamping at its bounds.
    pub fn allow_overflow(self) -> (r: Self)
        ensures
            r.namespace() == self.namespace(),
            r.key() == self.key(),
            r.is_increment() == self.is_increment(),
            r.amount() == self.amount(),
            !r.is_saturating(),
    {
        let Builder { namespace, key, increment, amount, saturating: _ } = self;
        Builder { namespace, key, increment, amount, saturating: false }
    }

    /// The key operation this builder is configured to issue.
    fn operation(&self) -> (op: KeyOperation)
        ensures
            operation_matches(
                op,
                self.namespace(),
                self.key(),
                self.is_increment(),
                self.amount(),
                self.is_saturating(),
            ),
    {
        let namespace = match &self.namespace {
            Some(ns) => Some(ns.clone()),
            None => None,
        };
        KeyOperation {
            namespace,
            key: self.key.clone(),
            command: if self.increment {
                Command::Increment { amount: self.amount, saturating: self.saturating }
            } else {
                Command::Decrement { amount: self.amount, saturating: self.saturating }
            },
        }
    }

    /// Executes the operation using the configured options and interprets
    /// the reply.  The store decides the outcome; whatever comes back, a
    /// successful result is a numeric value of the amount's own subtype.
    pub fn execute<K: KeyValue>(self, kv: &mut K) -> (r: Result<Numeric, Error>)
        ensures
            r matches Ok(n) ==> kind_of(n) == kind_of(self.amount()),
    {
        let kind = self.amount.kind();
        let op = self.operation();
        match kv.execute_key_operation(op) {
            Ok(output) => interpret_numeric_reply(output, kind),
            Err(e) => Err(e),
        }
    }
}

/// The explicit state of a suspend/resume key operation: pending until the
/// operation is issued, executing while the store's reply is awaited,
/// resolved once the reply has been interpreted.
pub enum BuilderState {
    /// Not yet issued; the configuration can still be changed.
    Pending(Builder),
    /// Issued; awaiting a reply carrying a value of the recorded subtype.
    Executing { kind: NumericKind },
    /// The interpreted result of the operation.
    Resolved(Result<Numeric, Error>),
}

/// The suspend/resume execution model of the same operation [`Builder`]
/// runs to completion: an external scheduler issues the operation returned
/// by [`AsyncBuilder::begin`], performs it across the connection boundary,
/// and hands the reply to [`AsyncBuilder::resolve`].  The interpretation
/// of the reply is the identical verified logic the blocking model uses.
#[must_use]
pub struct AsyncBuilder {
    state: BuilderState,
}

impl AsyncBuilder {
    /// Whether the operation has not been issued yet.
    pub closed spec fn is_pending(&self) -> bool {
        self.state is Pending
    }

    /// Whether the operation is in flight.
    pub closed spec fn is_executing(&self) -> bool {
        self.state is Executing
    }

    /// Whether the operation has resolved.
    pub closed spec fn is_resolved(&self) -> bool {
        self.state is Resolved
    }

    /// The configuration of a pending operation.
    pub closed spec fn config(&self) -> Builder
        recommends
            self.is_pending(),
    {
        self.state->Pending_0
    }

    /// The numeric subtype an in-flight operation expects its reply in.
    pub closed spec fn expected_kind(&self) -> NumericKind
        recommends
            self.is_executing(),
    {
        self.state->Executing_kind
    }

    /// The result of a resolved operation.
    pub closed spec fn result(&self) -> Result<Numeric, Error>
        recommends
            self.is_resolved(),
    {
        self.state->Resolved_0
    }

    /// Configures an increment (`increment` true) or decrement of `key` by
    /// `amount`, to be driven by a scheduler.  Saturating arithmetic is the
    /// default.
    pub fn new(
        namespace: Option<String>,
        increment: bool,
        key: String,
        amount: Numeric,
    ) -> (r: AsyncBuilder)
        ensures
            r.is_pending(),
            r.config().namespace() == (match namespace {
                Some(ns) => Some::<Seq<char>>(ns@),
                None => None::<Seq<char>>,
            }),
            r.config().key() == key@,
            r.config().is_increment() == increment,
            r.config().amount() == amount,
            r.config().is_saturating(),
    {
        AsyncBuilder { state: BuilderState::Pending(Builder::new(namespace, increment, key, amount)) }
    }

    /// Allows overflowing the value, as [`Builder::allow_overflow`] does.
    /// The operation must not have been issued yet.
    pub fn allow_overflow(self) -> (r: Self)
        requires
            self.is_pending(),
        ensures
            r.is_pending(),
            r.config().namespace() == self.config().namespace(),
            r.config().key() == self.config().key(),
            r.config().is_increment() == self.config().is_increment(),
            r.config().amount() == self.config().amount(),
            !r.config().is_saturating(),
    {
        match self.state {
            BuilderState::Pending(builder) => AsyncBuilder {
                state: BuilderState::Pending(builder.allow_overflow()),
            },
            _ => unreached(),
        }
    }

    /// Returns the resolved result, consuming the state object.
    pub fn take_result(self) -> (r: Result<Numeric, Error>)
        requires
            self.is_resolved(),
        ensures
            r == self.result(),
    {
        match self.state {
            BuilderState::Resolved(r) => r,
            _ => unreached(),
        }
    }

    /// Issues the configured operation: returns the key operation the
    /// scheduler must execute across the connection boundary, and suspends
    /// until the reply is handed to [`Self::resolve`].
    pub fn begin(&mut self) -> (op: KeyOperation)
        requires
            old(self).is_pending(),
        ensures
            final(self).is_executing(),
            final(self).expected_kind() == kind_of(old(self).config().amount()),
            operation_matches(
                op,
                old(self).config().namespace(),
                old(self).config().key(),
                old(self).config().is_increment(),
                old(self).config().amount(),
                old(self).config().is_saturating(),
            ),
    {
        let (op, kind) = match &self.state {
            BuilderState::Pending(builder) => (builder.operation(), builder.amount.kind()),
            _ => unreached(),
        };
        self.state = BuilderState::Executing { kind };
        op
    }

    /// Resumes with the store's reply: interprets it exactly as the
    /// blocking model does and records the result.
    pub fn resolve(&mut self, reply: Result<Output, Error>)
        requires
            old(self).is_executing(),
        ensures
            final(self).is_resolved(),
            match reply {
                Ok(output) => match numeric_reply(output, old(self).expected_kind()) {
                    Some(n) => final(self).result() == Ok::<Numeric, Error>(n),
                    None => final(self).result() == Err::<Numeric, Error>(Error::TypeMismatch),
                },
                Err(e) => final(self).result() == Err::<Numeric, Error>(e),
            },
    {
        let kind = match &self.state {
            BuilderState::Executing { kind } => *kind,
            _ => unreached(),
        };
        let result = match reply {
            Ok(output) => interpret_numeric_reply(output, kind),
            Err(e) => Err(e),
        };
        self.state = BuilderState::Resolved(result);
    }
}

} // verus!
