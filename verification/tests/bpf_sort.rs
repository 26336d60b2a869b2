use keystone_vertex::bpf_sort::{bpf_sort, bpf_sort_by, bpf_sort_by_key};

#[test]
fn sorts_ascending() {
    let mut v = vec![5u64, 1, 4, 1, 3];
    bpf_sort(&mut v);
    assert_eq!(v, vec![1, 1, 3, 4, 5]);
    let mut empty: Vec<u64> = vec![];
    bpf_sort(&mut empty);
    assert!(empty.is_empty());
    let mut one = vec![7i32];
    bpf_sort(&mut one);
    assert_eq!(one, vec![7]);
    let mut pairs = vec![(2u8, 1u8), (1, 9), (2, 0)];
    bpf_sort(&mut pairs);
    assert_eq!(pairs, vec![(1, 9), (2, 0), (2, 1)]);
    let mut words = vec![String::from("pear"), String::from("apple"), String::from("fig")];
    bpf_sort(&mut words);
    assert_eq!(words, vec!["apple", "fig", "pear"]);
}

#[test]
fn sorts_like_the_standard_sort() {
    let mut seed: u64 = 0x9e37_79b9_7f4a_7c15;
    for len in [2usize, 3, 10, 64, 257] {
        let mut v: Vec<u32> = Vec::with_capacity(len);
        for _ in 0..len {
            seed = seed.wrapping_mul(6364136223846793005).wrapping_add(1442695040888963407);
            v.push((seed >> 40) as u32 % 50);
        }
        let mut expected = v.clone();
        expected.sort_unstable();
        bpf_sort(&mut v);
        assert_eq!(v, expected);
    }
    let mut descending: Vec<u16> = (0..100).rev().collect();
    bpf_sort(&mut descending);
    assert_eq!(descending, (0..100).collect::<Vec<u16>>());
}

#[test]
fn sorts_by_comparator() {
    let mut v = vec![5u64, 1, 4, 1, 3];
    bpf_sort_by(&mut v, |a, b| b.cmp(a));
    assert_eq!(v, vec![5, 4, 3, 1, 1]);
    let mut calls = 0u32;
    let mut w = vec![3u8, 2, 1];
    bpf_sort_by(&mut w, |a, b| {
        calls += 1;
        a.cmp(b)
    });
    assert_eq!(w, vec![1, 2, 3]);
    assert_eq!(calls, 3);
}

#[test]
fn sorts_by_key() {
    let mut v = vec![(3u8, 'a'), (1, 'b'), (2, 'c')];
    bpf_sort_by_key(&mut v, |p| p.0);
    assert_eq!(v, vec![(1, 'b'), (2, 'c'), (3, 'a')]);
    let mut w = vec![-3i32, 1, -2];
    bpf_sort_by_key(&mut w, |x| x.abs());
    assert_eq!(w, vec![1, -2, -3]);
}
