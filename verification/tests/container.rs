use std::cell::Cell;

use rw_lock::raw::spin::{Mutex, RwLock as Counting};
use rw_lock::{Guard, GuardMut, RwLock, Wait, WaitMut};

const ROUNDS: usize = 64;

fn shared(lock: &RwLock<i32, Counting>) -> Guard<'_, i32, Counting> {
    let mut wait: Wait<'_, i32, Counting> = lock.lock();
    for _ in 0..ROUNDS {
        match wait.poll() {
            Ok(guard) => return guard,
            Err(again) => wait = again,
        }
    }
    panic!("the shared acquire did not finish");
}

fn exclusive(lock: &RwLock<i32, Counting>) -> GuardMut<'_, i32, Counting> {
    let mut wait: WaitMut<'_, i32, Counting> = lock.lock_mut();
    for _ in 0..ROUNDS {
        match wait.poll() {
            Ok(guard) => return guard,
            Err(again) => wait = again,
        }
    }
    panic!("the exclusive acquire did not finish");
}

#[test]
fn shared_guard_reads_the_value_then_exclusive_succeeds() {
    let lock: RwLock<i32, Counting> = RwLock::new(5);
    let guard = shared(&lock);
    assert_eq!(*guard, 5);
    guard.release();
    let guard = exclusive(&lock);
    assert_eq!(*guard, 5);
    guard.release();
}

#[test]
fn two_shared_guards_hold_back_an_exclusive_acquire() {
    let lock: RwLock<i32, Counting> = RwLock::new(9);
    let first = shared(&lock);
    let second = shared(&lock);
    assert_eq!(*first, 9);
    assert_eq!(*second, 9);

    let mut wait = lock.lock_mut();
    for _ in 0..ROUNDS {
        wait = match wait.poll() {
            Ok(_) => panic!("exclusive access beside two shared guards"),
            Err(again) => again,
        };
    }
    first.release();
    for _ in 0..ROUNDS {
        wait = match wait.poll() {
            Ok(_) => panic!("exclusive access beside a shared guard"),
            Err(again) => again,
        };
    }
    second.release();

    let mut done = None;
    for _ in 0..ROUNDS {
        match wait.poll() {
            Ok(guard) => {
                done = Some(guard);
                break;
            }
            Err(again) => wait = again,
        }
    }
    let guard = done.expect("the exclusive acquire did not finish");
    assert_eq!(*guard, 9);
    assert!(lock.try_lock().is_none());
    guard.release();
    assert!(lock.try_lock().is_some());
}

#[test]
fn try_exclusive_fails_beside_a_shared_guard() {
    let lock: RwLock<i32, Counting> = RwLock::new(1);
    let guard = lock.try_lock().expect("an idle lock grants shared access");
    assert!(lock.try_lock_mut().is_none());
    guard.release();
    let guard = lock.try_lock_mut().expect("an idle lock grants exclusive access");
    guard.release();
}

#[test]
fn exclusive_then_shared_then_exclusive() {
    let lock: RwLock<i32, Counting> = RwLock::new(3);
    exclusive(&lock).release();
    let guard = lock.try_lock().expect("released lock grants shared access");
    assert_eq!(*guard, 3);
    assert!(lock.try_lock_mut().is_none());
    guard.release();
    let guard = lock.try_lock_mut().expect("released lock grants exclusive access");
    assert_eq!(*guard, 3);
    guard.release();
}

#[test]
fn exclusive_guard_shuts_out_every_other_guard() {
    let lock: RwLock<i32, Counting> = RwLock::new(0);
    let guard = lock.try_lock_mut().expect("an idle lock grants exclusive access");
    assert!(lock.try_lock().is_none());
    assert!(lock.try_lock_mut().is_none());
    let mut wait = lock.lock();
    for _ in 0..ROUNDS {
        wait = match wait.poll() {
            Ok(_) => panic!("shared access beside an exclusive guard"),
            Err(again) => again,
        };
    }
    guard.release();
    let mut granted = false;
    for _ in 0..ROUNDS {
        match wait.poll() {
            Ok(guard) => {
                granted = true;
                guard.release();
                break;
            }
            Err(again) => wait = again,
        }
    }
    assert!(granted);
    lock.try_lock_mut().expect("every guard is gone").release();
}

#[test]
fn many_shared_guards_coexist() {
    let lock: RwLock<i32, Counting> = RwLock::new(7);
    let mut guards = Vec::new();
    for _ in 0..100 {
        guards.push(lock.try_lock().expect("shared access beside shared guards"));
    }
    assert!(lock.try_lock_mut().is_none());
    while let Some(guard) = guards.pop() {
        assert!(lock.try_lock_mut().is_none());
        assert_eq!(*guard, 7);
        guard.release();
    }
    lock.try_lock_mut().expect("every guard is gone").release();
}

#[test]
fn failed_upgrade_hands_the_shared_guard_back() {
    let lock: RwLock<i32, Counting> = RwLock::new(11);
    let other = lock.try_lock().expect("an idle lock grants shared access");
    let guard = lock.try_lock().expect("shared access beside a shared guard");
    let guard = match guard.try_upgrade() {
        Ok(_) => panic!("the counting lock does not upgrade"),
        Err(guard) => guard,
    };
    assert_eq!(*guard, 11);
    // Both shared holds still stand: releasing one is not enough for a writer.
    other.release();
    assert!(lock.try_lock_mut().is_none());
    assert!(lock.try_lock().is_some_and(|third| {
        third.release();
        true
    }));
    guard.release();
    lock.try_lock_mut().expect("every guard is gone").release();
}

#[test]
fn failed_upgrade_on_the_binary_lock() {
    let lock: RwLock<i32, Mutex> = RwLock::new(2);
    let guard = lock.try_lock().expect("an idle lock grants access");
    let guard = match guard.try_upgrade() {
        Ok(_) => panic!("the binary lock does not upgrade"),
        Err(guard) => guard,
    };
    assert_eq!(*guard, 2);
    assert!(lock.try_lock().is_none());
    guard.release();
    lock.try_lock_mut().expect("the guard is gone").release();
}

#[test]
fn binary_lock_grants_one_guard_of_either_kind() {
    let lock: RwLock<i32, Mutex> = RwLock::new(4);
    let guard = lock.try_lock().expect("an idle lock grants access");
    assert!(lock.try_lock().is_none());
    assert!(lock.try_lock_mut().is_none());
    guard.release();
    let guard = lock.try_lock_mut().expect("an idle lock grants access");
    assert!(lock.try_lock().is_none());
    assert!(lock.try_lock_mut().is_none());
    guard.release();
    let mut wait = lock.lock();
    let mut seen = None;
    for _ in 0..ROUNDS {
        match wait.poll() {
            Ok(guard) => {
                seen = Some(*guard);
                guard.release();
                break;
            }
            Err(again) => wait = again,
        }
    }
    assert_eq!(seen, Some(4));
}

#[test]
fn writes_under_an_exclusive_guard_are_seen_by_the_next_guard() {
    let lock: RwLock<Cell<i32>, Counting> = RwLock::new(Cell::new(5));
    let guard = lock.try_lock_mut().expect("an idle lock grants exclusive access");
    guard.set(guard.get() + 1);
    guard.release();
    let guard = lock.try_lock().expect("released lock grants shared access");
    assert_eq!(guard.get(), 6);
    guard.release();
}

#[test]
fn guards_lend_unsized_values() {
    let lock: RwLock<[i32; 3], Counting> = RwLock::new([1, 2, 3]);
    let slice: &RwLock<[i32], Counting> = &lock;
    let first = slice.try_lock().expect("an idle lock grants shared access");
    let second = shared_slice(slice);
    assert_eq!(first.len(), 3);
    assert_eq!(second[1], 2);
    assert!(slice.try_lock_mut().is_none());
    first.release();
    second.release();
    let guard = slice.try_lock_mut().expect("every guard is gone");
    assert_eq!(&*guard, &[1, 2, 3][..]);
    guard.release();
}

fn shared_slice(lock: &RwLock<[i32], Counting>) -> Guard<'_, [i32], Counting> {
    let mut wait = lock.lock();
    for _ in 0..ROUNDS {
        match wait.poll() {
            Ok(guard) => return guard,
            Err(again) => wait = again,
        }
    }
    panic!("the shared acquire did not finish");
}

#[test]
fn an_unfinished_shared_acquire_holds_nothing() {
    let lock: RwLock<i32, Counting> = RwLock::new(8);
    let writer = lock.try_lock_mut().expect("an idle lock grants exclusive access");
    let wait = lock.lock();
    let wait = match wait.poll() {
        Ok(_) => panic!("shared access beside an exclusive guard"),
        Err(again) => again,
    };
    writer.release();
    // The acquire was never granted, so giving it up leaves the lock free.
    drop(wait);
    lock.try_lock_mut().expect("nothing is held").release();
}
