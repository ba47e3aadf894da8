use std::cell::Cell;
use std::rc::Rc;

use docdb_core::document::{Document, DocumentId};
use docdb_core::entry::{
    Entry, EntryAction, EntryEvent, EntryInsert, EntryUpdate, load, Nameable, NamedReference,
};
use docdb_core::error::Error;
use docdb_core::memory::MemoryConnection;

/// An update-mutator that bumps the first byte and counts its invocations.
struct CountingBump {
    hits: Rc<Cell<u32>>,
}

impl EntryUpdate for CountingBump {
    fn call(&self, contents: &mut Vec<u8>) {
        self.hits.set(self.hits.get() + 1);
        contents[0] = contents[0].wrapping_add(1);
    }
}

/// An update-mutator that bumps the rank held in the first byte.
struct RankBump;

impl EntryUpdate for RankBump {
    fn call(&self, contents: &mut Vec<u8>) {
        contents[0] += 1;
    }
}

/// An insert-producer yielding the default record, rank zero.
struct DefaultRecord;

impl EntryInsert for DefaultRecord {
    fn call(self) -> Vec<u8> {
        vec![0u8]
    }
}

fn conflict_against(current: &Document) -> Error {
    Error::Conflict {
        collection: String::from("docs"),
        header: current.header(),
    }
}

#[test]
fn bounded_retry_succeeds_after_budget_conflicts() {
    // With a retry budget of 2 and conflicts injected on the first two
    // attempts, the third attempt succeeds, and the mutator ran exactly
    // three times, each time on the most recently loaded contents.
    let hits = Rc::new(Cell::new(0));
    let mut entry = Entry::new(NamedReference::Key(1))
        .update_with(CountingBump { hits: hits.clone() })
        .retry_limit(2);

    let action = entry.start();
    assert!(matches!(action, EntryAction::Load(NamedReference::Key(1))));

    let loaded = Document::new(DocumentId(1), vec![10u8]);
    let action = entry.step(EntryEvent::Loaded(Ok(Some(loaded))));
    let first_write = match action {
        EntryAction::Write(doc) => doc,
        other => panic!("expected a write, got {:?}", other),
    };
    assert_eq!(first_write.contents, vec![11u8]);
    assert_eq!(hits.get(), 1);

    // First conflict: another writer moved the document to [20].
    let current = Document::new(DocumentId(1), vec![20u8]);
    let action = entry.step(EntryEvent::Written(Err(conflict_against(&current))));
    assert!(matches!(action, EntryAction::Load(NamedReference::Id(DocumentId(1)))));
    assert_eq!(hits.get(), 1);

    let action = entry.step(EntryEvent::Loaded(Ok(Some(current))));
    let second_write = match action {
        EntryAction::Write(doc) => doc,
        other => panic!("expected a write, got {:?}", other),
    };
    assert_eq!(second_write.contents, vec![21u8]);
    assert_eq!(hits.get(), 2);

    // Second conflict: the document moved again, to [30].
    let current = Document::new(DocumentId(1), vec![30u8]);
    let action = entry.step(EntryEvent::Written(Err(conflict_against(&current))));
    assert!(matches!(action, EntryAction::Load(_)));

    let action = entry.step(EntryEvent::Loaded(Ok(Some(current))));
    let third_write = match action {
        EntryAction::Write(doc) => doc,
        other => panic!("expected a write, got {:?}", other),
    };
    assert_eq!(third_write.contents, vec![31u8]);
    assert_eq!(hits.get(), 3);

    let committed = Document::new(DocumentId(1), vec![31u8]);
    let action = entry.step(EntryEvent::Written(Ok(committed.header())));
    assert!(matches!(action, EntryAction::Finish));

    let result = entry.take_result().expect("retry within budget must succeed");
    let doc = result.expect("a committed update yields a document");
    assert_eq!(doc.contents, vec![31u8]);
    assert_eq!(hits.get(), 3);
}

#[test]
fn exhausted_budget_surfaces_conflict() {
    let hits = Rc::new(Cell::new(0));
    let mut entry = Entry::new(NamedReference::Key(1))
        .update_with(CountingBump { hits: hits.clone() })
        .retry_limit(0);

    entry.start();
    let loaded = Document::new(DocumentId(1), vec![10u8]);
    entry.step(EntryEvent::Loaded(Ok(Some(loaded))));

    let current = Document::new(DocumentId(1), vec![20u8]);
    let action = entry.step(EntryEvent::Written(Err(conflict_against(&current))));
    assert!(matches!(action, EntryAction::Finish));

    match entry.take_result() {
        Err(Error::Conflict { header, .. }) => {
            assert_eq!(header.id, DocumentId(1));
            assert!(header.revision.matches(&current.revision));
        }
        other => panic!("an exhausted budget must surface the conflict, got {:?}", other),
    }
    assert_eq!(hits.get(), 1);
}

#[test]
fn deleted_during_retry_resolves_empty() {
    // A document deleted between the conflict and the reload is an empty
    // result, not an error.
    let hits = Rc::new(Cell::new(0));
    let mut entry = Entry::new(NamedReference::Key(1))
        .update_with(CountingBump { hits: hits.clone() })
        .retry_limit(3);

    entry.start();
    let loaded = Document::new(DocumentId(1), vec![10u8]);
    entry.step(EntryEvent::Loaded(Ok(Some(loaded))));

    let current = Document::new(DocumentId(1), vec![20u8]);
    let action = entry.step(EntryEvent::Written(Err(conflict_against(&current))));
    assert!(matches!(action, EntryAction::Load(_)));

    let action = entry.step(EntryEvent::Loaded(Ok(None)));
    assert!(matches!(action, EntryAction::Finish));
    let result = entry.take_result().expect("deletion during retry is not an error");
    assert!(result.is_none());
    assert_eq!(hits.get(), 1);
}

#[test]
fn transport_error_aborts_immediately() {
    let hits = Rc::new(Cell::new(0));
    let mut entry = Entry::new(NamedReference::Key(1))
        .update_with(CountingBump { hits: hits.clone() })
        .retry_limit(5);

    entry.start();
    let loaded = Document::new(DocumentId(1), vec![10u8]);
    entry.step(EntryEvent::Loaded(Ok(Some(loaded))));

    let action = entry.step(EntryEvent::Written(Err(Error::Transport {
        message: String::from("wire torn"),
    })));
    assert!(matches!(action, EntryAction::Finish));
    match entry.take_result() {
        Err(Error::Transport { .. }) => {}
        other => panic!("a transport error must surface untouched, got {:?}", other),
    }
    assert_eq!(hits.get(), 1);
}

#[test]
fn serialization_error_surfaces_untouched() {
    let mut entry = Entry::new(NamedReference::Key(1)).update_with(RankBump);
    entry.start();
    let action = entry.step(EntryEvent::Loaded(Err(Error::Serialization {
        message: String::from("malformed bytes"),
    })));
    assert!(matches!(action, EntryAction::Finish));
    match entry.take_result() {
        Err(Error::Serialization { message }) => assert_eq!(message, "malformed bytes"),
        other => panic!("expected the serialization error back, got {:?}", other),
    }
}

#[test]
fn insert_then_find() {
    // `or_insert_with` on an absent name creates exactly one document via
    // the producer; a later call with no mutator returns that document
    // unchanged and issues no write.
    let mut store = MemoryConnection::new(String::from("players"));

    let mut entry = Entry::new(NamedReference::Name(String::from("alice")))
        .update_with(RankBump)
        .or_insert_with(DefaultRecord)
        .retry_limit(3);
    let inserted = entry
        .execute(&mut store)
        .expect("insert path must succeed")
        .expect("a produced document is returned");
    assert_eq!(inserted.contents, vec![0u8]);

    // The externally defined unique-name view indexes the new document.
    store.set_name(String::from("alice"), inserted.id);

    let before = store.fetch(inserted.id).unwrap();

    let mut reader = Entry::new(NamedReference::Name(String::from("alice")))
        .or_insert_with(DefaultRecord);
    let found = reader
        .execute(&mut store)
        .expect("lookup must succeed")
        .expect("the inserted document is found by name");
    assert_eq!(found.id, inserted.id);
    assert_eq!(found.contents, vec![0u8]);

    // No write was issued: the stored revision is unchanged, and exactly
    // one document exists.
    let after = store.fetch(inserted.id).unwrap();
    assert!(after.revision.matches(&before.revision));
    assert_eq!(store.fetch_multiple(&vec![inserted.id]).len(), 1);
}

#[test]
fn upsert_scenario_bumps_rank() {
    // An absent "alice" is inserted with the default record, rank 0;
    // running the same entry again updates the now-present record to
    // rank 1.
    let mut store = MemoryConnection::new(String::from("players"));

    let mut first = Entry::new(NamedReference::Name(String::from("alice")))
        .update_with(RankBump)
        .or_insert_with(DefaultRecord)
        .retry_limit(3);
    let inserted = first.execute(&mut store).unwrap().unwrap();
    assert_eq!(inserted.contents, vec![0u8]);
    store.set_name(String::from("alice"), inserted.id);

    let mut second = Entry::new(NamedReference::Name(String::from("alice")))
        .update_with(RankBump)
        .or_insert_with(DefaultRecord)
        .retry_limit(3);
    let updated = second.execute(&mut store).unwrap().unwrap();
    assert_eq!(updated.contents, vec![1u8]);
    assert_eq!(updated.id, inserted.id);
    assert_eq!(store.fetch(inserted.id).unwrap().contents, vec![1u8]);
}

#[test]
fn absent_without_producer_resolves_empty() {
    let mut store = MemoryConnection::new(String::from("players"));
    let mut entry = Entry::new(NamedReference::Key(9));
    let result = entry.execute(&mut store).expect("a plain lookup must succeed");
    assert!(result.is_none());
}

#[test]
fn references_resolve() {
    let mut store = MemoryConnection::new(String::from("players"));
    let h = store.store_new(&vec![1u8]).unwrap();
    store.set_name(String::from("bob"), h.id);

    let by_key = load(&NamedReference::Key(h.id.0), &store).unwrap().unwrap();
    assert_eq!(by_key.id, h.id);
    let by_id = load(&NamedReference::Id(h.id), &store).unwrap().unwrap();
    assert_eq!(by_id.id, h.id);
    let by_name = load(&NamedReference::Name(String::from("bob")), &store).unwrap().unwrap();
    assert_eq!(by_name.id, h.id);

    assert_eq!(
        NamedReference::Id(h.id).id(&store).unwrap(),
        Some(h.id)
    );
    assert_eq!(
        NamedReference::Name(String::from("bob")).id(&store).unwrap(),
        Some(h.id)
    );
    assert_eq!(
        NamedReference::Name(String::from("nobody")).id(&store).unwrap(),
        None
    );
}

#[test]
fn nameable_conversions() {
    assert_eq!(
        String::from("carol").name().unwrap(),
        NamedReference::Name(String::from("carol"))
    );
    assert_eq!(7u64.name().unwrap(), NamedReference::Key(7));
    assert_eq!(
        DocumentId(3).name().unwrap(),
        NamedReference::Id(DocumentId(3))
    );
    let reference = NamedReference::Name(String::from("carol"));
    assert_eq!(reference.duplicate().into_owned(), NamedReference::Name(String::from("carol")));
}
