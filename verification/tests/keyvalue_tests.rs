use docdb_core::error::Error;
use docdb_core::keyvalue::{
    AsyncBuilder, Builder, Command, KeyOperation, KeyValue, Output, Value,
};
use docdb_core::numeric::{apply_step, Numeric};

/// A miniature key-value store applying the verified arithmetic, standing
/// in for the storage side of the connection.
struct MiniKv {
    entries: Vec<(String, Numeric)>,
}

impl MiniKv {
    fn with(key: &str, value: Numeric) -> MiniKv {
        MiniKv {
            entries: vec![(String::from(key), value)],
        }
    }
}

/// The zero of the subtype `n` belongs to.
fn zero_like(n: Numeric) -> Numeric {
    apply_step(n, n, false, false)
}

impl KeyValue for MiniKv {
    fn execute_key_operation(&mut self, op: KeyOperation) -> Result<Output, Error> {
        let (amount, saturating, increment) = match op.command {
            Command::Increment { amount, saturating } => (amount, saturating, true),
            Command::Decrement { amount, saturating } => (amount, saturating, false),
        };
        for entry in self.entries.iter_mut() {
            if entry.0 == op.key {
                if entry.1.kind() != amount.kind() {
                    // Echo the held value; the client treats the subtype
                    // mismatch as a protocol violation.
                    return Ok(Output::Value(Some(Value::Numeric(entry.1))));
                }
                let next = apply_step(entry.1, amount, increment, saturating);
                entry.1 = next;
                return Ok(Output::Value(Some(Value::Numeric(next))));
            }
        }
        let next = apply_step(zero_like(amount), amount, increment, saturating);
        self.entries.push((op.key, next));
        Ok(Output::Value(Some(Value::Numeric(next))))
    }
}

#[test]
fn increment_saturates_at_subtype_maximum() {
    // An 8-bit unsigned 250 incremented by 10 with saturation returns 255.
    let mut kv = MiniKv::with("score", Numeric::U8(250));
    let result = Builder::new(None, true, String::from("score"), Numeric::U8(10))
        .execute(&mut kv)
        .unwrap();
    assert_eq!(result, Numeric::U8(255));
}

#[test]
fn increment_with_overflow_wraps() {
    // The same increment with overflow allowed wraps to 4.
    let mut kv = MiniKv::with("score", Numeric::U8(250));
    let result = Builder::new(None, true, String::from("score"), Numeric::U8(10))
        .allow_overflow()
        .execute(&mut kv)
        .unwrap();
    assert_eq!(result, Numeric::U8(4));
}

#[test]
fn decrement_saturates_at_subtype_minimum() {
    let mut kv = MiniKv::with("score", Numeric::U8(3));
    let result = Builder::new(None, false, String::from("score"), Numeric::U8(10))
        .execute(&mut kv)
        .unwrap();
    assert_eq!(result, Numeric::U8(0));
}

#[test]
fn absent_key_counts_from_zero() {
    let mut kv = MiniKv { entries: Vec::new() };
    let result = Builder::new(None, true, String::from("fresh"), Numeric::I64(-5))
        .execute(&mut kv)
        .unwrap();
    assert_eq!(result, Numeric::I64(-5));
}

#[test]
fn subtype_mismatch_is_fatal() {
    let mut kv = MiniKv::with("score", Numeric::U64(5));
    let result = Builder::new(None, true, String::from("score"), Numeric::U8(1)).execute(&mut kv);
    assert!(matches!(result, Err(Error::TypeMismatch)));
}

#[test]
fn suspended_builder_runs_the_same_operation() {
    // The suspend/resume model issues the identical operation and
    // interprets the reply through the identical logic.
    let mut kv = MiniKv::with("score", Numeric::U8(250));
    let mut pending = AsyncBuilder::new(None, true, String::from("score"), Numeric::U8(10))
        .allow_overflow();

    let op = pending.begin();
    assert_eq!(op.key, String::from("score"));
    assert!(op.namespace.is_none());
    assert!(matches!(
        op.command,
        Command::Increment { amount: Numeric::U8(10), saturating: false }
    ));

    let reply = kv.execute_key_operation(op);
    pending.resolve(reply);
    assert_eq!(pending.take_result().unwrap(), Numeric::U8(4));
}

#[test]
fn suspended_builder_rejects_foreign_reply() {
    let mut pending = AsyncBuilder::new(Some(String::from("ns")), false, String::from("k"), Numeric::U16(7));
    let op = pending.begin();
    assert_eq!(op.namespace, Some(String::from("ns")));
    pending.resolve(Ok(Output::Value(Some(Value::Numeric(Numeric::U32(1))))));
    assert!(matches!(pending.take_result(), Err(Error::TypeMismatch)));
}

#[test]
fn empty_reply_is_a_protocol_violation() {
    let mut pending = AsyncBuilder::new(None, true, String::from("k"), Numeric::U8(1));
    let _op = pending.begin();
    pending.resolve(Ok(Output::Value(None)));
    assert!(matches!(pending.take_result(), Err(Error::TypeMismatch)));
}
