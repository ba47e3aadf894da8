use docdb_core::document::{Document, DocumentId, MapRecord};
use docdb_core::revision::Revision;

#[test]
fn emissions() {
    let doc = Document::new(DocumentId(7), vec![1, 2, 3]);

    assert_eq!(
        doc.emit(),
        MapRecord {
            source: doc.id,
            key: (),
            value: ()
        }
    );

    assert_eq!(
        doc.emit_key(1),
        MapRecord {
            source: doc.id,
            key: 1,
            value: ()
        }
    );

    assert_eq!(
        doc.emit_value(1),
        MapRecord {
            source: doc.id,
            key: (),
            value: 1
        }
    );

    assert_eq!(
        doc.emit_key_and_value(1, 2),
        MapRecord {
            source: doc.id,
            key: 1,
            value: 2
        }
    );
}

#[test]
fn revision_chain() {
    let contents = vec![10u8, 20, 30];
    let r0 = Revision::initial(&contents);

    // Byte-identical contents elide the write: no successor token.
    assert!(r0.next(&contents).is_none());
    assert!(r0.represents(&contents));
    assert_eq!(r0.sequence(), 0);

    let changed = vec![10u8, 20, 31];
    let r1 = r0.next(&changed).expect("changed contents must mint a successor");
    assert_eq!(r1.sequence(), 1);
    assert!(!r1.matches(&r0));
    assert!(r1.matches(&r1.duplicate()));
    assert!(r1.represents(&changed));
    assert!(!r1.represents(&contents));
}

#[test]
fn document_update_with() {
    let doc = Document::new(DocumentId(1), vec![5u8]);
    assert!(doc.update_with(&vec![5u8]).is_none());

    let updated = doc
        .update_with(&vec![6u8])
        .expect("changed contents must yield an updated document");
    assert_eq!(updated.id, DocumentId(1));
    assert_eq!(updated.contents, vec![6u8]);
    assert_eq!(updated.revision.sequence(), 1);
    assert_eq!(doc.contents(), vec![5u8]);
}

#[test]
fn header_identity() {
    let doc = Document::new(DocumentId(9), vec![1u8]);
    let header = doc.header();
    assert_eq!(header.id, DocumentId(9));
    assert!(header.revision.matches(&doc.revision));
}
