use fitsview::data::DataContainer;
use fitsview::header::{Bitpix, Header, Keyword};
use fitsview::ingest::ingest;
use fitsview::state::{transition, AppEvent, AppState};
use AppEvent::{BytesReady, FileSelected, ReadFailed, SelectionCleared};
use AppState::{Empty, LoadedInvalid, LoadedValid, Reading};

#[test]
fn container_accepts_matching_shape_only() {
    assert!(DataContainer::new(vec![0, 1, 2, 3, 4, 5], vec![2, 3]).is_some());
    assert!(DataContainer::new(vec![0, 1, 2], vec![2, 3]).is_none());
    // A zero axis means an empty array.
    assert!(DataContainer::new(Vec::new(), vec![0, 5]).is_some());
    assert!(DataContainer::new(vec![1], vec![0, 5]).is_none());
    // A zero-dimensional array holds exactly one sample.
    assert!(DataContainer::new(vec![9], Vec::new()).is_some());
    // Huge axes cannot match any in-memory sample count.
    assert!(DataContainer::new(vec![1, 2], vec![usize::MAX, usize::MAX]).is_none());
    // ... unless a later axis is zero.
    assert!(DataContainer::new(Vec::new(), vec![usize::MAX, usize::MAX, 0]).is_some());
}

#[test]
fn container_read_access() {
    let c = DataContainer::new(vec![10, 20, 30, 40], vec![2, 2]).unwrap();
    assert_eq!(c.sample_count(), 4);
    assert_eq!(c.shape(), &vec![2, 2]);
    assert_eq!(c.sample_at(0), 10);
    assert_eq!(c.sample_at(3), 40);
    let d = c.with_samples(vec![5, 6, 7, 8]);
    assert_eq!(d.shape, vec![2, 2]);
    assert_eq!(d.samples, vec![5, 6, 7, 8]);
    // The source is unchanged.
    assert_eq!(c.sample_at(0), 10);
}

#[test]
fn ingest_assembles_decoded_model() {
    let d = ingest(
        true,
        Bitpix::Double,
        vec![2, 2],
        Vec::new(),
        vec![1, 2, 3, 4],
    )
    .expect("counts match");
    assert!(d.header.simple);
    assert_eq!(d.header.bitpix, Bitpix::Double);
    assert_eq!(d.header.naxis, d.data.shape.len());
    assert_eq!(d.header.axes, vec![2, 2]);
    assert!(d.has_drawable_image());
}

#[test]
fn ingest_rejects_mismatched_counts() {
    assert!(ingest(true, Bitpix::Short, vec![2, 2], Vec::new(), vec![1, 2, 3]).is_none());
    assert!(ingest(true, Bitpix::Short, vec![3], Vec::new(), vec![1, 2, 3]).is_some());
}

#[test]
fn drawable_image_needs_two_axes_and_samples() {
    let flat = ingest(true, Bitpix::Byte, vec![3], Vec::new(), vec![1, 2, 3]).unwrap();
    assert!(!flat.has_drawable_image());
    let empty = ingest(true, Bitpix::Byte, vec![0, 4], Vec::new(), Vec::new()).unwrap();
    assert!(!empty.has_drawable_image());
}

#[test]
fn keyword_order_is_preserved() {
    // [Comment("a"), Value("X", "1", ""), History("b")] must come back
    // in exactly that order, unmerged.
    let keywords = vec![
        Keyword::Comment(String::from("a")),
        Keyword::Value(String::from("X"), String::from("1"), String::new()),
        Keyword::History(String::from("b")),
    ];
    let h = Header::new(true, Bitpix::Short, vec![2, 2], keywords);
    assert_eq!(h.keywords.len(), 3);
    match &h.keywords[0] {
        Keyword::Comment(t) => assert_eq!(t, "a"),
        other => panic!("unexpected first keyword: {:?}", other),
    }
    match &h.keywords[1] {
        Keyword::Value(k, v, c) => {
            assert_eq!(k, "X");
            assert_eq!(v, "1");
            assert_eq!(c, "");
        }
        other => panic!("unexpected second keyword: {:?}", other),
    }
    match &h.keywords[2] {
        Keyword::History(t) => assert_eq!(t, "b"),
        other => panic!("unexpected third keyword: {:?}", other),
    }
}

#[test]
fn keyword_labels() {
    let value = Keyword::Value(String::from("DATE"), String::from("x"), String::new());
    assert_eq!(value.label(), "DATE");
    assert_eq!(Keyword::History(String::from("h")).label(), "HISTORY");
    assert_eq!(Keyword::Comment(String::from("c")).label(), "COMMENT");
    let cont = Keyword::Continue(String::from("CONTINUE"), String::from("y"), String::new());
    assert_eq!(cont.label(), "CONTINUE");
}

#[test]
fn header_accessors() {
    let h = Header::new(false, Bitpix::Single, vec![5, 7], Vec::new());
    assert!(!h.simple());
    assert_eq!(h.bitpix(), Bitpix::Single);
    assert_eq!(h.naxis(), 2);
    assert_eq!(h.axes(), &vec![5, 7]);
    assert!(h.keywords().is_empty());
}

#[test]
fn bitpix_codes() {
    assert_eq!(Bitpix::Byte.code(), 8);
    assert_eq!(Bitpix::Short.code(), 16);
    assert_eq!(Bitpix::Long.code(), 32);
    assert_eq!(Bitpix::LongLong.code(), 64);
    assert_eq!(Bitpix::Single.code(), -32);
    assert_eq!(Bitpix::Double.code(), -64);
}

#[test]
fn state_machine_transitions() {
    assert_eq!(transition(Empty, FileSelected), Reading);
    assert_eq!(transition(Reading, BytesReady { recognized: true }), LoadedValid);
    assert_eq!(transition(Reading, BytesReady { recognized: false }), LoadedInvalid);
    assert_eq!(transition(Reading, ReadFailed), Empty);
    // A new selection always wins.
    assert_eq!(transition(LoadedValid, FileSelected), Reading);
    assert_eq!(transition(LoadedInvalid, FileSelected), Reading);
    // Late completions of a superseded read are ignored.
    assert_eq!(transition(LoadedValid, BytesReady { recognized: false }), LoadedValid);
    assert_eq!(transition(Empty, BytesReady { recognized: true }), Empty);
    assert_eq!(transition(LoadedValid, ReadFailed), LoadedValid);
    // Clearing the selection always empties.
    assert_eq!(transition(Reading, SelectionCleared), Empty);
    assert_eq!(transition(LoadedValid, SelectionCleared), Empty);
}
