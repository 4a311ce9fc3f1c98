use pyembed_downloader::download::{transfer, Download, ProgressEvent, Shown, BAR_WIDTH};
use pyembed_downloader::error::Error;

#[test]
fn known_size_is_reported_with_every_chunk() {
    let mut d = Download::begin(200, Some("11")).unwrap();
    assert_eq!(d.progress(), ProgressEvent { total: 11, current: 0 });
    assert_eq!(d.receive(b"hello"), ProgressEvent { total: 11, current: 5 });
    assert_eq!(d.receive(b""), ProgressEvent { total: 11, current: 5 });
    assert_eq!(d.receive(b" world"), ProgressEvent { total: 11, current: 11 });
    let (data, last) = d.finish();
    assert_eq!(data, b"hello world".to_vec());
    assert_eq!(last, ProgressEvent { total: -1, current: -1 });
    assert!(last.is_reset());
}

#[test]
fn progress_never_goes_down() {
    let mut d = Download::begin(200, Some("1000")).unwrap();
    let mut last = d.progress().current;
    for len in [0usize, 1, 10, 0, 500, 489] {
        let now = d.receive(&vec![7u8; len]).current;
        assert!(now >= last);
        last = now;
    }
    assert_eq!(last, 1000);
}

#[test]
fn unknown_size_is_minus_one() {
    let mut d = Download::begin(204, None).unwrap();
    assert_eq!(d.progress(), ProgressEvent { total: -1, current: 0 });
    assert!(!d.progress().is_reset());
    assert_eq!(d.receive(b"abc"), ProgressEvent { total: -1, current: 3 });
}

#[test]
fn bad_status_is_refused() {
    for status in [199u16, 300, 301, 404, 500, 0] {
        assert_eq!(Download::begin(status, Some("5")).err(), Some(Error::HttpStatus(status)));
    }
    for status in [200u16, 206, 299] {
        assert!(Download::begin(status, Some("5")).is_ok());
    }
}

#[test]
fn bad_length_is_refused() {
    for header in ["", "abc", "12 ", "1.5", "99999999999999999999"] {
        assert_eq!(Download::begin(200, Some(header)).err(), Some(Error::InvalidLength), "{:?}", header);
    }
    assert_eq!(Download::begin(200, Some("-5")).unwrap().progress().total, -5);
    assert_eq!(Download::begin(200, Some("+5")).unwrap().progress().total, 5);
}

#[test]
fn reset_is_both_minus_one() {
    assert_eq!(ProgressEvent::reset(), ProgressEvent { total: -1, current: -1 });
    assert!(!ProgressEvent { total: -1, current: 0 }.is_reset());
    assert!(!ProgressEvent { total: 0, current: -1 }.is_reset());
}

#[test]
fn whole_transfer_reports_from_start_to_reset() {
    let chunks = vec![b"hel".to_vec(), b"lo ".to_vec(), vec![], b"world".to_vec()];
    let (data, events) = transfer(200, Some("11"), &chunks).unwrap();
    assert_eq!(data, b"hello world".to_vec());
    let seen: Vec<(i64, i64)> = events.iter().map(|e| (e.total, e.current)).collect();
    assert_eq!(seen, vec![(11, 0), (11, 3), (11, 6), (11, 6), (11, 11), (-1, -1)]);
    let before_reset = &seen[..seen.len() - 1];
    assert!(before_reset.windows(2).all(|w| w[0].1 <= w[1].1));
    assert_eq!(before_reset.last().unwrap().1, 11);
}

#[test]
fn transfer_without_chunks() {
    let (data, events) = transfer(200, None, &vec![]).unwrap();
    assert!(data.is_empty());
    assert_eq!(events, vec![ProgressEvent { total: -1, current: 0 }, ProgressEvent { total: -1, current: -1 }]);
    assert_eq!(transfer(500, None, &vec![]).err(), Some(Error::HttpStatus(500)));
    assert_eq!(transfer(200, Some("x"), &vec![]).err(), Some(Error::InvalidLength));
}

#[test]
fn what_is_shown_for_a_report() {
    assert_eq!(ProgressEvent { total: -1, current: -1 }.shown(), Shown::Cleared);
    assert_eq!(ProgressEvent { total: -1, current: 4096 }.shown(), Shown::Received(4096));
    assert_eq!(ProgressEvent { total: 0, current: 7 }.shown(), Shown::Received(7));
    assert_eq!(ProgressEvent { total: -5, current: 7 }.shown(), Shown::Received(7));
    assert_eq!(ProgressEvent { total: 200, current: 0 }.shown(), Shown::Part { percent: 0, filled: 0 });
    assert_eq!(ProgressEvent { total: 200, current: 50 }.shown(), Shown::Part { percent: 25, filled: 7 });
    assert_eq!(ProgressEvent { total: 3, current: 2 }.shown(), Shown::Part { percent: 66, filled: 20 });
    assert_eq!(ProgressEvent { total: 200, current: 200 }.shown(), Shown::Part { percent: 100, filled: 30 });
    assert_eq!(ProgressEvent { total: 200, current: 900 }.shown(), Shown::Part { percent: 100, filled: 30 });
    assert_eq!(ProgressEvent { total: 200, current: -3 }.shown(), Shown::Part { percent: 0, filled: 0 });
    assert_eq!(
        ProgressEvent { total: i64::MAX, current: i64::MAX - 1 }.shown(),
        Shown::Part { percent: 99, filled: 29 }
    );
}

#[test]
fn text_of_what_is_shown() {
    assert_eq!(BAR_WIDTH, 30);
    assert_eq!(Shown::Cleared.text(), "");
    assert_eq!(Shown::Received(4096).text(), "4096");
    assert_eq!(Shown::Part { percent: 25, filled: 7 }.text(), format!("25% [{}{}]", "#".repeat(7), "-".repeat(23)));
    assert_eq!(Shown::Part { percent: 0, filled: 0 }.text(), format!("0% [{}]", "-".repeat(30)));
    assert_eq!(Shown::Part { percent: 100, filled: 30 }.text(), format!("100% [{}]", "#".repeat(30)));
    assert_eq!(Shown::Part { percent: 100, filled: 99 }.text(), format!("100% [{}]", "#".repeat(30)));
    assert_eq!(Shown::Part { percent: 1, filled: -4 }.text(), format!("1% [{}]", "-".repeat(30)));
}
