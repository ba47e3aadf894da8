use docdb_core::connection::{insert, push, Connection, Range, Sort};
use docdb_core::connection::List;
use docdb_core::document::{Document, DocumentId};
use docdb_core::error::Error;
use docdb_core::memory::MemoryConnection;

fn store_with(payloads: &[Vec<u8>]) -> MemoryConnection {
    let mut store = MemoryConnection::new(String::from("docs"));
    for payload in payloads {
        store.store_new(payload).expect("fresh store must accept pushes");
    }
    store
}

#[test]
fn store_retrieve() {
    let mut store = MemoryConnection::new(String::from("docs"));
    let original_value = vec![9u8, 8, 7, 6];
    let header = store.store_new(&original_value).expect("push must succeed");

    let doc = store.fetch(header.id).expect("couldn't retrieve stored item");
    assert_eq!(doc.contents, original_value);
    assert_eq!(doc.id, header.id);
    assert!(doc.revision.matches(&header.revision));
}

#[test]
fn conflict_carries_current_header() {
    // A document at revision R0; an update presenting R0 succeeds and
    // yields R1 != R0; a second update still presenting R0 fails with a
    // conflict carrying (id, R1) and never mutates stored state.
    let mut store = MemoryConnection::new(String::from("docs"));
    let h0 = store.store_new(&vec![1u8]).unwrap();

    let first = Document {
        id: h0.id,
        revision: h0.revision.duplicate(),
        contents: vec![2u8],
    };
    let h1 = store.conditioned_update(&first).expect("matching revision must commit");
    assert!(!h1.revision.matches(&h0.revision));

    let stale = Document {
        id: h0.id,
        revision: h0.revision.duplicate(),
        contents: vec![3u8],
    };
    match store.conditioned_update(&stale) {
        Err(Error::Conflict { header, .. }) => {
            assert_eq!(header.id, h0.id);
            assert!(header.revision.matches(&h1.revision));
        }
        other => panic!("stale update must conflict, got {:?}", other),
    }

    // The rejected write left the committed contents untouched.
    let doc = store.fetch(h0.id).unwrap();
    assert_eq!(doc.contents, vec![2u8]);
    assert!(doc.revision.matches(&h1.revision));
}

#[test]
fn noop_update_is_elided() {
    let mut store = MemoryConnection::new(String::from("docs"));
    let h0 = store.store_new(&vec![5u8]).unwrap();
    let same = Document {
        id: h0.id,
        revision: h0.revision.duplicate(),
        contents: vec![5u8],
    };
    let h = store.conditioned_update(&same).expect("no-op write must succeed");
    assert!(h.revision.matches(&h0.revision));
}

#[test]
fn update_of_absent_document_fails() {
    let mut store = MemoryConnection::new(String::from("docs"));
    let ghostless = Document::new(DocumentId(42), vec![1u8]);
    match store.conditioned_update(&ghostless) {
        Err(Error::DocumentNotFound { id, .. }) => assert_eq!(id, DocumentId(42)),
        other => panic!("expected a missing-document error, got {:?}", other),
    }
}

#[test]
fn place_refuses_existing_id() {
    let mut store = MemoryConnection::new(String::from("docs"));
    let h0 = store.store_new(&vec![1u8]).unwrap();
    match store.place(h0.id, &vec![2u8]) {
        Err(Error::Conflict { header, .. }) => assert_eq!(header.id, h0.id),
        other => panic!("expected a conflict, got {:?}", other),
    }
    let h = store.place(DocumentId(100), &vec![2u8]).expect("fresh id must insert");
    assert_eq!(h.id, DocumentId(100));
    assert_eq!(store.fetch(DocumentId(100)).unwrap().contents, vec![2u8]);
}

#[test]
fn overwrite_bypasses_conflict_detection() {
    let mut store = MemoryConnection::new(String::from("docs"));
    let h0 = store.store_new(&vec![1u8]).unwrap();
    let h1 = store.force_write(h0.id, &vec![2u8]).unwrap();
    assert!(!h1.revision.matches(&h0.revision));
    assert_eq!(store.fetch(h0.id).unwrap().contents, vec![2u8]);

    let h2 = store.force_write(DocumentId(50), &vec![3u8]).unwrap();
    assert_eq!(h2.id, DocumentId(50));
    assert_eq!(store.fetch(DocumentId(50)).unwrap().contents, vec![3u8]);
}

#[test]
fn delete_removes_document() {
    let mut store = store_with(&[vec![1u8], vec![2u8]]);
    assert!(store.delete(DocumentId(1)));
    assert!(store.fetch(DocumentId(1)).is_none());
    assert!(!store.delete(DocumentId(1)));
    assert!(store.fetch(DocumentId(2)).is_some());
}

#[test]
fn name_index_resolves_first_match() {
    let mut store = store_with(&[vec![1u8], vec![2u8]]);
    store.set_name(String::from("alpha"), DocumentId(1));
    store.set_name(String::from("alpha"), DocumentId(2));

    let doc = store.query_name(&String::from("alpha")).expect("indexed name must resolve");
    assert_eq!(doc.id, DocumentId(1));
    assert!(store.query_name(&String::from("beta")).is_none());

    store.delete(DocumentId(1));
    // The first entry still wins; its document being gone yields an empty
    // result rather than falling through to the second entry.
    assert!(store.query_name(&String::from("alpha")).is_none());
}

#[test]
fn fetch_multiple_skips_absent_ids() {
    let store = store_with(&[vec![1u8], vec![2u8], vec![3u8]]);
    let docs = store.fetch_multiple(&vec![DocumentId(3), DocumentId(99), DocumentId(1)]);
    let mut ids: Vec<u64> = docs.iter().map(|d| d.id.0).collect();
    ids.sort();
    assert_eq!(ids, vec![1, 3]);
}

#[test]
fn listing_orders_and_limits() {
    let store = store_with(&[vec![1u8], vec![2u8], vec![3u8], vec![4u8]]);

    let all = List::new(Range::all()).ascending().query(&store).unwrap();
    let ids: Vec<u64> = all.iter().map(|d| d.id.0).collect();
    assert_eq!(ids, vec![1, 2, 3, 4]);

    let top = List::new(Range::all()).descending().limit(2).query(&store).unwrap();
    let ids: Vec<u64> = top.iter().map(|d| d.id.0).collect();
    assert_eq!(ids, vec![4, 3]);

    let bounded = Range {
        start: Some(DocumentId(2)),
        end: Some(DocumentId(3)),
    };
    let mid = store.list_range(bounded, Sort::Ascending, None);
    let ids: Vec<u64> = mid.iter().map(|d| d.id.0).collect();
    assert_eq!(ids, vec![2, 3]);
}

#[test]
fn push_and_insert_return_documents() {
    let mut store = MemoryConnection::new(String::from("docs"));
    let pushed = push(vec![1u8, 2], &mut store).expect("push into a fresh store succeeds");
    assert_eq!(pushed.contents, vec![1u8, 2]);
    assert_eq!(pushed.revision.sequence(), 0);

    let placed = insert(DocumentId(10), vec![3u8], &mut store).expect("fresh id inserts");
    assert_eq!(placed.id, DocumentId(10));

    // A second insert under the same id hands the refused contents back.
    let refused = insert(DocumentId(10), vec![4u8], &mut store)
        .expect_err("an occupied id refuses the insert");
    assert_eq!(refused.contents, vec![4u8]);
    assert!(matches!(refused.error, Error::Conflict { .. }));
}

#[test]
fn trait_connection_delegates() {
    let mut store = MemoryConnection::new(String::from("docs"));
    let h = Connection::push(&mut store, &vec![7u8]).unwrap();
    let fetched = Connection::get(&store, h.id).unwrap().unwrap();
    assert_eq!(fetched.contents, vec![7u8]);
    let listed = Connection::list(&store, Range::all(), Sort::Descending, None).unwrap();
    assert_eq!(listed.len(), 1);
}
