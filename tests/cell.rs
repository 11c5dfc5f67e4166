use flume::cell::CausalCell;

#[test]
fn cell_with_reads_initial_value() {
    let c = CausalCell::new(7u64);
    assert_eq!(c.with(|x: &u64| *x), 7);
}

#[test]
fn cell_with_returns_callback_result() {
    let c = CausalCell::new(vec![1u8, 2, 3]);
    assert_eq!(c.with(|v: &Vec<u8>| v.len()), 3);
}

#[test]
fn cell_with_mut_updates_value() {
    let mut c = CausalCell::new(7u64);
    let r = c.with_mut(|x: &mut u64| {
        *x += 1;
        *x * 10
    });
    assert_eq!(r, 80);
    assert_eq!(c.with(|x: &u64| *x), 8);
}

#[test]
fn cell_with_mut_without_change_keeps_value() {
    let mut c = CausalCell::new(String::from("abc"));
    let n = c.with_mut(|s: &mut String| s.len());
    assert_eq!(n, 3);
    assert_eq!(c.with(|s: &String| s.clone()), "abc");
}
