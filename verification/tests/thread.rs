use nokozero::thread::{MainCell, MainThread, OffMainThread, ThreadOwner};

#[test]
fn thread_claim_idempotency() {
    let mut cell: MainCell<u32> = MainCell::new(1);
    let mut owner = ThreadOwner::new();

    let thread = MainThread::claim(&mut owner, 7).expect("first claim");
    let _confirmed = MainThread::claim(&mut owner, 7).expect("same thread");
    let _current = MainThread::current(&owner, 7).expect("claimed thread");

    assert_eq!(cell.get(thread), 1);
    cell.set(thread, 5);
    assert_eq!(cell.replace(thread, 7), 5);
    assert_eq!(cell.get(thread), 7);
}

#[test]
fn other_thread_refused() {
    let mut owner = ThreadOwner::new();
    assert!(MainThread::claim(&mut owner, 7).is_ok());
    assert_eq!(
        MainThread::claim(&mut owner, 8).err(),
        Some(OffMainThread { current: 8, main: 7 })
    );
    assert_eq!(
        MainThread::current(&owner, 9).err(),
        Some(OffMainThread { current: 9, main: 7 })
    );
}
