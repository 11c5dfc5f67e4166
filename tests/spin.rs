use flume::spin::Mutex;

#[test]
fn fresh_mutex_is_unlocked() {
    let m = Mutex::new(0u32);
    assert!(!m.is_locked());
}

#[test]
fn try_lock_on_free_mutex_succeeds() {
    let mut m = Mutex::new(0u32);
    let g = m.try_lock();
    assert!(g.is_some());
    assert!(m.is_locked());
}

#[test]
fn try_lock_on_held_mutex_fails() {
    let mut m = Mutex::new(0u32);
    let g = m.try_lock().unwrap();
    assert!(m.try_lock().is_none());
    assert!(m.is_locked());
    assert_eq!(g.with(&m, |v: &u32| *v), 0);
}

#[test]
fn handoff_observes_increment() {
    let mut m = Mutex::new(0u32);
    let a = m.try_lock().unwrap();
    a.with_mut(&mut m, |v: &mut u32| *v += 1);
    a.release(&mut m);
    let b = m.try_lock().unwrap();
    assert_eq!(b.with(&m, |v: &u32| *v), 1);
    b.release(&mut m);
}

#[test]
fn five_attempts_one_succeeds() {
    let mut m = Mutex::new(0u32);
    let mut guards = Vec::new();
    let mut empty = 0u32;
    for _ in 0..5 {
        match m.try_lock() {
            Some(g) => guards.push(g),
            None => empty += 1,
        }
    }
    assert_eq!(guards.len(), 1);
    assert_eq!(empty, 4);
    let g = guards.pop().unwrap();
    g.release(&mut m);
    assert!(m.try_lock().is_some());
}

#[test]
fn release_clears_flag() {
    let mut m = Mutex::new(5i64);
    let g = m.try_lock().unwrap();
    assert!(m.is_locked());
    g.release(&mut m);
    assert!(!m.is_locked());
}

#[test]
fn release_keeps_written_value() {
    let mut m = Mutex::new(String::from("a"));
    let g = m.try_lock().unwrap();
    let len = g.with_mut(&mut m, |s: &mut String| {
        s.push('b');
        s.len()
    });
    assert_eq!(len, 2);
    g.release(&mut m);
    let g = m.try_lock().unwrap();
    assert_eq!(g.with(&m, |s: &String| s.clone()), "ab");
}

#[test]
fn failed_attempt_leaves_value() {
    let mut m = Mutex::new(3u8);
    let g = m.try_lock().unwrap();
    g.with_mut(&mut m, |v: &mut u8| *v = 9);
    assert!(m.try_lock().is_none());
    assert_eq!(g.with(&m, |v: &u8| *v), 9);
}

#[test]
fn scoped_lock_releases_on_exit() {
    let mut m = Mutex::new(0u32);
    let r = m.try_with_lock(|v: &mut u32| {
        *v += 1;
        *v
    });
    assert_eq!(r, Some(1));
    assert!(!m.is_locked());
    let g = m.try_lock().unwrap();
    assert_eq!(g.with(&m, |v: &u32| *v), 1);
}

#[test]
fn scoped_lock_on_held_mutex_runs_nothing() {
    let mut m = Mutex::new(10u32);
    let g = m.try_lock().unwrap();
    let mut ran = false;
    let r = m.try_with_lock(|v: &mut u32| {
        ran = true;
        *v = 0;
    });
    assert!(r.is_none());
    assert!(!ran);
    assert!(m.is_locked());
    assert_eq!(g.with(&m, |v: &u32| *v), 10);
}

#[test]
fn repeated_scoped_locks_accumulate() {
    let mut m = Mutex::new(0u64);
    for _ in 0..100 {
        assert!(m.try_with_lock(|v: &mut u64| *v += 2).is_some());
    }
    assert!(!m.is_locked());
    assert_eq!(m.try_with_lock(|v: &mut u64| *v), Some(200));
}
