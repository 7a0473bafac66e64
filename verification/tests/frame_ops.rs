use frunk_column::Frame;
use frunk_column::HCons;
use frunk_column::HNil;
use frunk_column::IntoRowIterator;
use frunk_column::Row;
use frunk_column::RowIterator;

type PairRow = HCons<u32, HCons<bool, HNil>>;

fn pair(n: u32, b: bool) -> PairRow {
    HCons {
        head: n,
        tail: HCons {
            head: b,
            tail: HNil,
        },
    }
}

#[test]
fn round_trip_three_records() {
    let mut frame = PairRow::new_frame();
    frame.push(pair(10, true));
    frame.push(pair(20, false));
    frame.push(pair(30, true));
    assert_eq!(frame.row(0), Some(pair(10, true)));
    assert_eq!(frame.row(1), Some(pair(20, false)));
    assert_eq!(frame.row(2), Some(pair(30, true)));
    assert_eq!(frame.row(3), None);
}

#[test]
fn columns_stay_synchronized() {
    let mut frame = PairRow::new_frame();
    assert_eq!(frame.head.len(), 0);
    assert_eq!(frame.tail.head.len(), 0);
    assert_eq!(frame.tail.tail.len, 0);
    frame.push(pair(1, true));
    frame.push(pair(2, true));
    frame.push(pair(3, false));
    assert_eq!(frame.head.len(), 3);
    assert_eq!(frame.tail.head.len(), 3);
    assert_eq!(frame.tail.tail.len, 3);
}

#[test]
fn iteration_yields_all_rows_in_order() {
    let mut frame = PairRow::new_frame();
    frame.push(pair(7, false));
    frame.push(pair(8, true));
    frame.push(pair(9, false));
    let mut it = frame.into_iter();
    assert_eq!(it.next(), Some(pair(7, false)));
    assert_eq!(it.next(), Some(pair(8, true)));
    assert_eq!(it.next(), Some(pair(9, false)));
    assert_eq!(it.next(), None);
}

#[test]
fn empty_frame_reports_absence() {
    let frame = PairRow::new_frame();
    assert_eq!(frame.row(0), None);
    let mut it = frame.into_iter();
    assert_eq!(it.next(), None);
}

#[test]
fn repeated_reads_return_equal_rows() {
    let mut frame = PairRow::new_frame();
    frame.push(pair(5, true));
    frame.push(pair(6, false));
    assert_eq!(frame.row(1), frame.row(1));
    assert_eq!(frame.row(1), Some(pair(6, false)));
    frame.push(pair(7, true));
    assert_eq!(frame.row(1), Some(pair(6, false)));
    assert_eq!(frame.row(2), Some(pair(7, true)));
}

#[test]
fn exhausted_iterator_stays_exhausted() {
    let mut frame = PairRow::new_frame();
    frame.push(pair(1, true));
    let mut it = frame.into_iter();
    assert_eq!(it.next(), Some(pair(1, true)));
    assert_eq!(it.next(), None);
    assert_eq!(it.next(), None);
    assert_eq!(it.next(), None);
}

#[test]
fn collecting_matches_push_order() {
    let mut frame = PairRow::new_frame();
    frame.push(pair(4, true));
    frame.push(pair(5, false));
    let rows = frunk_column::frame_to_rows(frame);
    assert_eq!(rows, vec![pair(4, true), pair(5, false)]);
}

#[test]
fn collecting_partly_consumed_adaptor() {
    let mut frame = PairRow::new_frame();
    frame.push(pair(1, true));
    frame.push(pair(2, false));
    frame.push(pair(3, true));
    let mut it = frame.into_iter();
    assert_eq!(it.next(), Some(pair(1, true)));
    let rest = frunk_column::collect_rows(it);
    assert_eq!(rest, vec![pair(2, false), pair(3, true)]);
}

#[test]
fn zero_field_schema_counts_records() {
    let mut frame = HNil::new_frame();
    assert_eq!(frame.row(0), None);
    frame.push(HNil);
    frame.push(HNil);
    assert_eq!(frame.row(0), Some(HNil));
    assert_eq!(frame.row(1), Some(HNil));
    assert_eq!(frame.row(2), None);
    let mut it = frame.into_iter();
    assert_eq!(it.next(), Some(HNil));
    assert_eq!(it.next(), Some(HNil));
    assert_eq!(it.next(), None);
}
