use std::sync::mpsc::channel;
use std::time::Duration;

use toy_runtime::fake_io::FakeIO;
use toy_runtime::handle::Handle;
use toy_runtime::mini_runtime::spawn;

#[test]
fn mini_spawn_numbers_every_task_zero() {
    assert_eq!(spawn(async { 1 + 1 }), 0);
    assert_eq!(spawn(async {}), 0);
}

#[test]
fn handle_receives_the_output() {
    let (tx, rx) = channel::<u64>();
    let handle = Handle::from_receiver(rx);
    tx.send(42).unwrap();
    assert_eq!(handle.receiver().recv().unwrap(), 42);
}

#[test]
fn handle_carries_a_fake_io_duration() {
    let (tx, rx) = channel::<Duration>();
    let handle = Handle::from_receiver(rx);
    let io = FakeIO::new(Duration::from_millis(1));
    let d = io.duration();
    tx.send(d).unwrap();
    assert_eq!(handle.receiver().recv().unwrap(), Duration::from_millis(1));
}
