use kcp::config::Duration;
use kcp::conv::ConvHistory;
use kcp::KcpStream;

const SEC: u64 = 1_000_000_000;

#[test]
fn numbers_are_dumped_oldest_first() {
    let mut h = ConvHistory::new(0, Duration::from_secs(10));
    assert!(h.dump(0).is_empty());
    h.add(SEC, 3);
    h.add(2 * SEC, 1);
    h.fill(3 * SEC, &[2, 3]);
    // 3 has been added again
    assert_eq!(h.dump(4 * SEC), vec![1, 2, 3]);
}

#[test]
fn invalid_numbers_are_ignored() {
    let mut h = ConvHistory::new(4, Duration::from_secs(10));
    h.fill(0, &[0, KcpStream::SYN_CONV, u32::MAX, 5]);
    h.add(0, 0);
    assert_eq!(h.dump(0), vec![5]);
}

#[test]
fn numbers_expire() {
    let mut h = ConvHistory::new(0, Duration::from_secs(10));
    h.add(0, 1);
    h.add(4 * SEC, 2);
    assert_eq!(h.dump(10 * SEC - 1), vec![1, 2]);
    assert_eq!(h.dump(10 * SEC), vec![2]);
    assert!(h.dump(14 * SEC).is_empty());
}

#[test]
fn without_a_timeout_nothing_is_kept() {
    let mut h = ConvHistory::new(0, Duration::from_secs(0));
    h.add(5, 1);
    assert!(h.dump(5).is_empty());
}

#[test]
fn a_number_from_the_future_is_kept() {
    let mut h = ConvHistory::new(0, Duration::from_secs(10));
    h.add(5 * SEC, 1);
    assert_eq!(h.dump(SEC), vec![1]);
}

#[test]
fn allocated_numbers_are_valid_and_vary() {
    let mut h = ConvHistory::new(0, Duration::from_secs(10));
    let a = h.allocate(0, |_| false);
    let b = h.allocate(0, |_| false);
    let c = h.allocate(0, |_| false);
    assert!(KcpStream::is_valid_conv(a));
    assert!(KcpStream::is_valid_conv(b));
    assert!(KcpStream::is_valid_conv(c));
    assert!(a != b || b != c);
}

#[test]
fn numbers_in_use_are_not_allocated() {
    let mut h = ConvHistory::new(0, Duration::from_secs(10));
    for _ in 0..100 {
        let conv = h.allocate(0, |x| x % 2 == 0);
        assert_eq!(conv % 2, 1);
    }
}

#[test]
fn allocation_drops_expired_numbers() {
    let mut h = ConvHistory::new(0, Duration::from_secs(1));
    h.add(0, 9);
    h.allocate(SEC, |_| false);
    // expired numbers are gone even for an earlier time
    assert!(h.dump(0).is_empty());
}

#[test]
fn allocation_is_tried() {
    let mut h = ConvHistory::new(0, Duration::from_secs(10));
    h.add(0, 9);
    let conv = h.try_allocate(0, |x| x % 2 == 0).unwrap();
    assert_eq!(conv % 2, 1);
    assert_ne!(conv, 9);
}
