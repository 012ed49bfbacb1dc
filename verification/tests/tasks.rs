use esp32_hal::errors::Error;
use esp32_hal::tasks::{created, run, spawn, NO_AFFINITY, PD_PASS};
use std::cell::Cell;
use std::rc::Rc;

#[test]
fn sentinels() {
    assert_eq!(NO_AFFINITY, i32::MAX);
    assert_eq!(NO_AFFINITY, 0x7fff_ffff);
    assert_eq!(PD_PASS, 1);
}

#[test]
fn spawn_describes_the_task() {
    let task = spawn("worker\0", 4096, 5, Some(1)).unwrap();
    assert_eq!(task.name(), "worker\0");
    assert_eq!(task.stack_depth(), 4096);
    assert_eq!(task.priority(), 5);
    assert_eq!(task.core_id(), 1);
}

#[test]
fn spawn_without_affinity_uses_the_sentinel() {
    let task = spawn("blink\0", 2048, 1, None).unwrap();
    assert_eq!(task.core_id(), NO_AFFINITY);
    assert_eq!(task.core_id(), 2147483647);
    assert_eq!(task.name(), "blink\0");
    assert_eq!(task.stack_depth(), 2048);
    assert_eq!(task.priority(), 1);
}

#[test]
fn spawn_on_core_zero() {
    let task = spawn("idle\0", 1024, 0, Some(0)).unwrap();
    assert_eq!(task.core_id(), 0);
    assert_eq!(task.priority(), 0);
}

#[test]
fn spawn_takes_the_largest_stack_and_priority() {
    let task = spawn("big\0", u32::MAX, u32::MAX, Some(1)).unwrap();
    assert_eq!(task.stack_depth(), u32::MAX);
    assert_eq!(task.priority(), u32::MAX);
}

#[test]
fn name_of_one_nul_byte_is_terminated() {
    let task = spawn("\0", 512, 1, None).unwrap();
    assert_eq!(task.name(), "\0");
}

#[test]
fn name_with_a_nul_inside_is_terminated_if_it_ends_in_one() {
    assert!(spawn("a\0b\0", 512, 1, None).is_ok());
}

#[test]
fn name_beyond_ascii_is_terminated_if_it_ends_in_a_nul() {
    assert!(spawn("t\u{e2}che\0", 512, 1, None).is_ok());
    assert_eq!(
        spawn("t\u{e2}che", 512, 1, None),
        Err(Error::UnterminatedName)
    );
}

#[test]
fn unterminated_name_is_refused() {
    assert_eq!(
        spawn("worker", 4096, 5, Some(1)),
        Err(Error::UnterminatedName)
    );
    assert_eq!(spawn("a\0b", 4096, 5, None), Err(Error::UnterminatedName));
}

#[test]
fn empty_name_is_refused() {
    assert_eq!(spawn("", 4096, 5, None), Err(Error::UnterminatedName));
}

#[test]
fn created_on_pass() {
    assert_eq!(created(1), Ok(()));
    assert_eq!(created(PD_PASS), Ok(()));
}

#[test]
fn creation_failure_keeps_the_status() {
    assert_eq!(
        created(esp_idf_sys::errCOULD_NOT_ALLOCATE_REQUIRED_MEMORY),
        Err(Error::TaskCreate(-1))
    );
    assert_eq!(created(0), Err(Error::TaskCreate(0)));
    assert_eq!(created(2), Err(Error::TaskCreate(2)));
}

#[test]
fn run_calls_the_work_exactly_once() {
    let mut count = 0;
    run(|| count += 1);
    assert_eq!(count, 1);
}

#[test]
fn run_calls_boxed_work_exactly_once() {
    let count = Rc::new(Cell::new(0u32));
    let seen = Rc::clone(&count);
    let work: Box<dyn FnMut()> = Box::new(move || seen.set(seen.get() + 1));
    let work = Box::new(work);
    run(work);
    assert_eq!(count.get(), 1);
    // The work went with the call: nothing else holds the counter now.
    assert_eq!(Rc::strong_count(&count), 1);
}

#[test]
fn run_hands_captured_state_to_the_work() {
    let log = Rc::new(Cell::new(0u32));
    let seen = Rc::clone(&log);
    let value = 41u32;
    run(move || seen.set(value + 1));
    assert_eq!(log.get(), 42);
}

#[test]
fn described_name_ends_in_a_nul_byte() {
    let task = spawn("sensor\0", 3072, 2, Some(0)).unwrap();
    assert_eq!(task.name().as_bytes().last(), Some(&0u8));
    assert_eq!(task, spawn("sensor\0", 3072, 2, Some(0)).unwrap());
    assert_ne!(task, spawn("sensor\0", 3072, 2, None).unwrap());
}
