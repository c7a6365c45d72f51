use audio_scope::ring_channel;

#[test]
fn write_within_capacity_is_fully_readable() {
    let mut c = ring_channel::new(8);
    let dropped = c.write(&[1, 2, 3, 4, 5]);
    assert_eq!(dropped, 0);
    assert_eq!(c.len(), 5);
    let (s1, s2) = c.read_access();
    let mut all: Vec<i16> = Vec::new();
    all.extend_from_slice(s1);
    all.extend_from_slice(s2);
    assert_eq!(all, vec![1, 2, 3, 4, 5]);
}

#[test]
fn read_access_does_not_consume() {
    let mut c = ring_channel::new(4);
    c.write(&[7, 8]);
    let first: Vec<i16> = {
        let (s1, s2) = c.read_access();
        s1.iter().chain(s2.iter()).copied().collect()
    };
    let second: Vec<i16> = {
        let (s1, s2) = c.read_access();
        s1.iter().chain(s2.iter()).copied().collect()
    };
    assert_eq!(first, second);
    assert_eq!(c.len(), 2);
}

#[test]
fn overflow_keeps_newest_tail() {
    let mut c = ring_channel::new(4);
    let dropped = c.write(&[1, 2, 3, 4, 5, 6]);
    assert_eq!(dropped, 2);
    assert_eq!(c.len(), 4);
    let (s1, s2) = c.read_access();
    let all: Vec<i16> = s1.iter().chain(s2.iter()).copied().collect();
    assert_eq!(all, vec![3, 4, 5, 6]);
}

#[test]
fn overflow_across_writes_keeps_newest_tail() {
    let mut c = ring_channel::new(4);
    c.write(&[10, 20, 30]);
    let dropped = c.write(&[40, 50, 60]);
    assert_eq!(dropped, 2);
    assert_eq!(c.len(), 4);
    let (s1, s2) = c.read_access();
    let all: Vec<i16> = s1.iter().chain(s2.iter()).copied().collect();
    assert_eq!(all, vec![30, 40, 50, 60]);
}

#[test]
fn len_never_exceeds_capacity() {
    let mut c = ring_channel::new(3);
    for chunk in [[1i16, 2, 3], [4, 5, 6], [7, 8, 9]] {
        c.write(&chunk);
        assert!(c.len() <= 3);
    }
}

#[test]
fn clear_empties_and_next_write_is_fully_visible() {
    let mut c = ring_channel::new(4);
    c.write(&[1, 2, 3, 4]);
    c.clear();
    assert_eq!(c.len(), 0);
    {
        let (s1, s2) = c.read_access();
        assert!(s1.is_empty() && s2.is_empty());
    }
    c.write(&[9, 9, 7]);
    assert_eq!(c.len(), 3);
    let (s1, s2) = c.read_access();
    let all: Vec<i16> = s1.iter().chain(s2.iter()).copied().collect();
    assert_eq!(all, vec![9, 9, 7]);
}

#[test]
fn batch_longer_than_capacity_keeps_its_tail() {
    let mut c = ring_channel::new(2);
    let dropped = c.write(&[1, 2, 3, 4, 5]);
    assert_eq!(dropped, 3);
    let (s1, s2) = c.read_access();
    let all: Vec<i16> = s1.iter().chain(s2.iter()).copied().collect();
    assert_eq!(all, vec![4, 5]);
}
