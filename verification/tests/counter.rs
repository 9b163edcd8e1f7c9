use nova_core::counter::AuxiliaryIdCounter;

#[test]
fn first_id_is_zero() {
    let mut ids = AuxiliaryIdCounter::new();
    assert_eq!(ids.next_id(), 0);
}

#[test]
fn ids_count_up_by_one() {
    let mut ids = AuxiliaryIdCounter::new();
    let got: Vec<u32> = (0..5).map(|_| ids.next_id()).collect();
    assert_eq!(got, vec![0, 1, 2, 3, 4]);
}

#[test]
fn n_calls_give_the_range_below_n_each_value_once() {
    let n: usize = 1000;
    let mut ids = AuxiliaryIdCounter::new();
    let mut seen = vec![false; n];
    for _ in 0..n {
        let id = ids.next_id() as usize;
        assert!(id < n);
        assert!(!seen[id]);
        seen[id] = true;
    }
    assert!(seen.iter().all(|s| *s));
}

#[test]
fn peek_shows_the_next_id_and_takes_nothing() {
    let mut ids = AuxiliaryIdCounter::new();
    assert_eq!(ids.peek(), 0);
    assert_eq!(ids.peek(), 0);
    assert_eq!(ids.next_id(), 0);
    assert_eq!(ids.peek(), 1);
    assert_eq!(ids.next_id(), 1);
    assert_eq!(ids.peek(), 2);
}

#[test]
fn two_counters_do_not_share_state() {
    let mut a = AuxiliaryIdCounter::new();
    let mut b = AuxiliaryIdCounter::new();
    assert_eq!(a.next_id(), 0);
    assert_eq!(a.next_id(), 1);
    assert_eq!(b.next_id(), 0);
}
