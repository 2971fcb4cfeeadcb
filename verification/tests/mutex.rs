use spiderweb::sync::{Mutex, MutexGuard, MutexLockFuture, SlotTable, WakerCell};
use spiderweb::task::Poll;
use std::sync::atomic::{AtomicUsize, Ordering};
use std::sync::Arc;
use std::task::{Wake, Waker};

struct LockWakes(AtomicUsize);

impl Wake for LockWakes {
    fn wake(self: Arc<Self>) {
        self.0.fetch_add(1, Ordering::SeqCst);
    }
}

fn lock_waker() -> (Arc<LockWakes>, Waker) {
    let wakes = Arc::new(LockWakes(AtomicUsize::new(0)));
    (wakes.clone(), Waker::from(wakes))
}

fn woken(wakes: &Arc<LockWakes>) -> usize {
    wakes.0.load(Ordering::SeqCst)
}

enum Task {
    Waiting(MutexLockFuture),
    Holding(MutexGuard),
    Updated(MutexGuard),
    Done,
}

fn move_task(task: Task, mutex: &mut Mutex<i32>, waker: &Waker) -> Task {
    match task {
        Task::Waiting(mut attempt) => match attempt.poll(mutex, waker) {
            Poll::Ready(guard) => {
                assert!(attempt.is_terminated());
                Task::Holding(guard)
            }
            Poll::Pending => Task::Waiting(attempt),
        },
        Task::Holding(mut guard) => {
            *guard.get_mut(mutex) += 1;
            Task::Updated(guard)
        }
        Task::Updated(guard) => {
            guard.unlock(mutex);
            Task::Done
        }
        Task::Done => Task::Done,
    }
}

fn holders(tasks: &[Task]) -> usize {
    tasks
        .iter()
        .filter(|t| matches!(t, Task::Holding(_) | Task::Updated(_)))
        .count()
}

fn run_contest(tasks: usize, schedule: &[usize]) -> i32 {
    let (_, waker) = lock_waker();
    let mut mutex = Mutex::new(2);
    let mut state: Vec<Task> = (0..tasks).map(|_| Task::Waiting(mutex.lock())).collect();
    for &pick in schedule {
        let task = std::mem::replace(&mut state[pick], Task::Done);
        state[pick] = move_task(task, &mut mutex, &waker);
        assert!(holders(&state) <= 1);
        assert_eq!(mutex.is_locked(), holders(&state) == 1);
    }
    let mut turn = 0;
    while !state.iter().all(|t| matches!(t, Task::Done)) {
        let task = std::mem::replace(&mut state[turn], Task::Done);
        state[turn] = move_task(task, &mut mutex, &waker);
        assert!(holders(&state) <= 1);
        turn = (turn + 1) % tasks;
    }
    assert!(!mutex.is_locked());
    mutex.into_inner()
}

#[test]
fn two_competing_acquires_leave_four_under_every_interleaving() {
    let length = 10;
    for bits in 0..(1usize << length) {
        let schedule: Vec<usize> = (0..length).map(|i| (bits >> i) & 1).collect();
        assert_eq!(run_contest(2, &schedule), 4);
    }
}

#[test]
fn three_competing_acquires_leave_five() {
    let mut schedule = Vec::new();
    let mut seed = 12345usize;
    for _ in 0..200 {
        seed = seed.wrapping_mul(6364136223846793005).wrapping_add(1442695040888963407);
        schedule.push((seed >> 33) % 3);
    }
    for start in 0..150 {
        assert_eq!(run_contest(3, &schedule[start..start + 40]), 5);
    }
}

#[test]
fn try_lock_claims_a_free_lock_and_refuses_a_held_one() {
    let mut mutex = Mutex::new(7u8);
    assert!(!mutex.is_locked());
    let guard = mutex.try_lock();
    assert!(guard.is_some());
    assert!(mutex.is_locked());
    assert!(mutex.try_lock().is_none());
    assert!(mutex.is_locked());
    guard.unwrap().unlock(&mut mutex);
    assert!(!mutex.is_locked());
    assert!(mutex.try_lock().is_some());
}

#[test]
fn guard_reads_and_writes_the_protected_value() {
    let mut mutex = Mutex::new(String::from("a"));
    let mut guard = mutex.try_lock().unwrap();
    assert_eq!(guard.get(&mutex), "a");
    guard.get_mut(&mut mutex).push('b');
    assert_eq!(guard.get(&mutex), "ab");
    guard.unlock(&mut mutex);
    assert_eq!(mutex.get_mut(), "ab");
    mutex.get_mut().push('c');
    assert_eq!(mutex.into_inner(), "abc");
}

#[test]
fn poll_on_a_free_lock_acquires_without_a_slot() {
    let (_, waker) = lock_waker();
    let mut mutex = Mutex::new(0u8);
    let mut attempt = mutex.lock();
    assert!(!attempt.is_terminated());
    assert!(attempt.poll(&mut mutex, &waker).is_ready());
    assert!(attempt.is_terminated());
    assert!(mutex.is_locked());
    assert_eq!(mutex.capacity(), 0);
}

#[test]
fn poll_on_a_held_lock_parks_and_unlock_wakes_one_waiter() {
    let (first_wakes, first) = lock_waker();
    let (second_wakes, second) = lock_waker();
    let mut mutex = Mutex::new(0u8);
    let guard = mutex.try_lock().unwrap();
    let mut a = mutex.lock();
    let mut b = mutex.lock();
    assert!(a.poll(&mut mutex, &first).is_pending());
    assert!(b.poll(&mut mutex, &second).is_pending());
    assert_eq!(mutex.capacity(), 2);
    assert!(guard.unlock(&mut mutex));
    assert_eq!(woken(&first_wakes), 1);
    assert_eq!(woken(&second_wakes), 0);
    assert!(!mutex.is_locked());
    let guard = match b.poll(&mut mutex, &second) {
        Poll::Ready(guard) => guard,
        Poll::Pending => panic!("the lock is free"),
    };
    assert!(a.poll(&mut mutex, &first).is_pending());
    assert!(guard.unlock(&mut mutex));
    assert_eq!(woken(&first_wakes), 2);
    assert_eq!(woken(&second_wakes), 0);
    assert!(a.poll(&mut mutex, &first).is_ready());
}

#[test]
fn unlock_without_waiters_wakes_nobody() {
    let mut mutex = Mutex::new(());
    let guard = mutex.try_lock().unwrap();
    assert!(!guard.unlock(&mut mutex));
}

#[test]
fn repolling_replaces_the_parked_waker() {
    let (first_wakes, first) = lock_waker();
    let (second_wakes, second) = lock_waker();
    let mut mutex = Mutex::new(());
    let guard = mutex.try_lock().unwrap();
    let mut attempt = mutex.lock();
    assert!(attempt.poll(&mut mutex, &first).is_pending());
    assert!(attempt.poll(&mut mutex, &second).is_pending());
    assert_eq!(mutex.capacity(), 1);
    guard.unlock(&mut mutex);
    assert_eq!(woken(&first_wakes), 0);
    assert_eq!(woken(&second_wakes), 1);
}

#[test]
fn abandoned_attempts_do_not_leak_slots() {
    let (wakes, waker) = lock_waker();
    let mut mutex = Mutex::new(1u32);
    let guard = mutex.try_lock().unwrap();
    for _ in 0..1000 {
        let mut attempt = mutex.lock();
        assert!(attempt.poll(&mut mutex, &waker).is_pending());
        attempt.cancel(&mut mutex);
        assert_eq!(mutex.capacity(), 1);
    }
    assert!(!guard.unlock(&mut mutex));
    assert_eq!(woken(&wakes), 0);
    let mut real = mutex.lock();
    assert!(real.poll(&mut mutex, &waker).is_ready());
    assert_eq!(mutex.capacity(), 1);
}

#[test]
fn abandoning_an_unpolled_attempt_changes_nothing() {
    let mut mutex = Mutex::new(1u32);
    let attempt = mutex.lock();
    attempt.cancel(&mut mutex);
    assert_eq!(mutex.capacity(), 0);
    assert!(!mutex.is_locked());
}

#[test]
fn acquiring_returns_the_slot_of_the_attempt() {
    let (_, waker) = lock_waker();
    let mut mutex = Mutex::new(());
    let guard = mutex.try_lock().unwrap();
    let mut a = mutex.lock();
    assert!(a.poll(&mut mutex, &waker).is_pending());
    guard.unlock(&mut mutex);
    let guard = match a.poll(&mut mutex, &waker) {
        Poll::Ready(guard) => guard,
        Poll::Pending => panic!("the lock is free"),
    };
    let mut b = mutex.lock();
    assert!(b.poll(&mut mutex, &waker).is_pending());
    assert_eq!(mutex.capacity(), 1);
    guard.unlock(&mut mutex);
}

#[test]
fn slot_table_hands_out_the_smallest_vacant_index() {
    let mut table = SlotTable::new();
    assert_eq!(table.len(), 0);
    assert_eq!(table.assign(), 0);
    assert_eq!(table.assign(), 1);
    assert_eq!(table.assign(), 2);
    assert_eq!(table.assign(), 3);
    table.release(2);
    table.release(0);
    table.release(3);
    assert_eq!(table.assign(), 0);
    assert_eq!(table.assign(), 2);
    assert_eq!(table.assign(), 3);
    assert_eq!(table.assign(), 4);
    assert_eq!(table.len(), 5);
}

#[test]
fn slot_table_wakes_the_first_populated_slot_in_index_order() {
    let (wakes_a, a) = lock_waker();
    let (wakes_b, b) = lock_waker();
    let mut table = SlotTable::new();
    let k0 = table.assign();
    let k1 = table.assign();
    let k2 = table.assign();
    table.register(k2, &a);
    table.register(k1, &b);
    assert_eq!(k0, 0);
    assert!(table.wake_first());
    assert_eq!((woken(&wakes_a), woken(&wakes_b)), (0, 1));
    assert!(table.wake_first());
    assert_eq!((woken(&wakes_a), woken(&wakes_b)), (1, 1));
    assert!(!table.wake_first());
    assert_eq!(table.len(), 3);
}

#[test]
fn slot_table_release_empties_without_waking() {
    let (wakes, waker) = lock_waker();
    let mut table = SlotTable::new();
    let key = table.assign();
    table.register(key, &waker);
    table.release(key);
    assert!(!table.wake_first());
    assert_eq!(woken(&wakes), 0);
}

#[test]
fn waker_cell_registers_and_wakes_once() {
    let (wakes, waker) = lock_waker();
    let mut cell = WakerCell::Uninit;
    assert!(!cell.wake());
    cell.register(&waker);
    assert!(matches!(cell, WakerCell::Init(_)));
    cell.register(&waker);
    assert!(cell.wake());
    assert!(matches!(cell, WakerCell::Uninit));
    assert_eq!(woken(&wakes), 1);
    assert!(!cell.wake());
    assert_eq!(woken(&wakes), 1);
}

#[test]
fn waker_cell_takes_a_waker_for_another_task() {
    let (first_wakes, first) = lock_waker();
    let (second_wakes, second) = lock_waker();
    let mut cell = WakerCell::Uninit;
    cell.register(&first);
    cell.register(&second);
    assert!(cell.wake());
    assert_eq!(woken(&first_wakes), 0);
    assert_eq!(woken(&second_wakes), 1);
}
