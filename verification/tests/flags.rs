use sysv_ipc::flags::{
    NewMessageQueueFlags, SendReceiveFlags, CREATION_BITS, GROUP_EXECUTE, GROUP_READ, GROUP_RWX,
    GROUP_WRITE, IPC_CREAT, IPC_EXCL, IPC_NOWAIT, MSG_NOERROR, OTHER_EXECUTE, OTHER_READ,
    OTHER_RWX, OTHER_WRITE, TRANSFER_BITS, USER_EXECUTE, USER_READ, USER_RWX, USER_WRITE,
};

#[test]
fn creation_bits_are_the_kernel_values() {
    assert_eq!(IPC_CREAT, libc::IPC_CREAT);
    assert_eq!(IPC_EXCL, libc::IPC_EXCL);
    assert_eq!(IPC_CREAT, 512);
    assert_eq!(IPC_EXCL, 1024);
    assert_eq!(USER_READ, libc::S_IRUSR as i32);
    assert_eq!(USER_WRITE, libc::S_IWUSR as i32);
    assert_eq!(USER_EXECUTE, libc::S_IXUSR as i32);
    assert_eq!(GROUP_READ, libc::S_IRGRP as i32);
    assert_eq!(GROUP_WRITE, libc::S_IWGRP as i32);
    assert_eq!(GROUP_EXECUTE, libc::S_IXGRP as i32);
    assert_eq!(OTHER_READ, libc::S_IROTH as i32);
    assert_eq!(OTHER_WRITE, libc::S_IWOTH as i32);
    assert_eq!(OTHER_EXECUTE, libc::S_IXOTH as i32);
    assert_eq!(USER_RWX, USER_READ | USER_WRITE | USER_EXECUTE);
    assert_eq!(GROUP_RWX, GROUP_READ | GROUP_WRITE | GROUP_EXECUTE);
    assert_eq!(OTHER_RWX, OTHER_READ | OTHER_WRITE | OTHER_EXECUTE);
    assert_eq!(CREATION_BITS, IPC_CREAT | IPC_EXCL | USER_RWX | GROUP_RWX | OTHER_RWX);
}

#[test]
fn transfer_bits_are_the_kernel_values() {
    assert_eq!(IPC_NOWAIT, libc::IPC_NOWAIT);
    assert_eq!(MSG_NOERROR, libc::MSG_NOERROR);
    assert_eq!(IPC_NOWAIT, 2048);
    assert_eq!(MSG_NOERROR, 4096);
    assert_eq!(TRANSFER_BITS, IPC_NOWAIT | MSG_NOERROR);
}

#[test]
fn named_creation_flags_hold_their_bit() {
    assert_eq!(NewMessageQueueFlags::ipc_creat().bits(), 0o1000);
    assert_eq!(NewMessageQueueFlags::ipc_excl().bits(), 0o2000);
    assert_eq!(NewMessageQueueFlags::user_read().bits(), 0o400);
    assert_eq!(NewMessageQueueFlags::user_write().bits(), 0o200);
    assert_eq!(NewMessageQueueFlags::user_execute().bits(), 0o100);
    assert_eq!(NewMessageQueueFlags::group_read().bits(), 0o040);
    assert_eq!(NewMessageQueueFlags::group_write().bits(), 0o020);
    assert_eq!(NewMessageQueueFlags::group_execute().bits(), 0o010);
    assert_eq!(NewMessageQueueFlags::other_read().bits(), 0o004);
    assert_eq!(NewMessageQueueFlags::other_write().bits(), 0o002);
    assert_eq!(NewMessageQueueFlags::other_execute().bits(), 0o001);
    assert_eq!(NewMessageQueueFlags::user_rwx().bits(), 0o700);
    assert_eq!(NewMessageQueueFlags::group_rwx().bits(), 0o070);
    assert_eq!(NewMessageQueueFlags::other_rwx().bits(), 0o007);
    assert_eq!(NewMessageQueueFlags::empty().bits(), 0);
    assert_eq!(NewMessageQueueFlags::all().bits(), 0o3777);
}

#[test]
fn named_transfer_flags_hold_their_bit() {
    assert_eq!(SendReceiveFlags::ipc_nowait().bits(), 0o4000);
    assert_eq!(SendReceiveFlags::msg_noerror().bits(), 0o10000);
    assert_eq!(SendReceiveFlags::empty().bits(), 0);
    assert_eq!(SendReceiveFlags::all().bits(), 0o14000);
}

#[test]
fn default_creation_flags_create_for_the_owner() {
    let flags = NewMessageQueueFlags::default();
    assert_eq!(flags.bits(), 0o1700);
    assert_eq!(flags, NewMessageQueueFlags::ipc_creat().union(NewMessageQueueFlags::user_rwx()));
    assert!(flags.contains(NewMessageQueueFlags::ipc_creat()));
    assert!(flags.contains(NewMessageQueueFlags::user_read()));
    assert!(flags.contains(NewMessageQueueFlags::user_write()));
    assert!(flags.contains(NewMessageQueueFlags::user_execute()));
    assert!(!flags.contains(NewMessageQueueFlags::ipc_excl()));
    assert!(!flags.contains(NewMessageQueueFlags::group_read()));
    assert!(!flags.contains(NewMessageQueueFlags::other_rwx()));
}

#[test]
fn default_transfer_flags_are_empty() {
    let flags = SendReceiveFlags::default();
    assert_eq!(flags.bits(), 0);
    assert!(flags.is_empty());
    assert_eq!(flags, SendReceiveFlags::empty());
    assert!(!flags.contains(SendReceiveFlags::ipc_nowait()));
    assert!(!flags.contains(SendReceiveFlags::msg_noerror()));
}

#[test]
fn union_joins_the_bits() {
    let rw = NewMessageQueueFlags::user_read().union(NewMessageQueueFlags::user_write());
    assert_eq!(rw.bits(), 0o600);
    assert_eq!(rw.union(rw), rw);
    assert_eq!(rw.union(NewMessageQueueFlags::empty()), rw);
    assert_eq!(rw.union(NewMessageQueueFlags::user_rwx()).bits(), 0o700);
    let both = SendReceiveFlags::ipc_nowait().union(SendReceiveFlags::msg_noerror());
    assert_eq!(both, SendReceiveFlags::all());
    assert_eq!(both.bits(), 0o14000);
}

#[test]
fn contains_asks_for_every_bit() {
    let rw = NewMessageQueueFlags::user_read().union(NewMessageQueueFlags::user_write());
    assert!(rw.contains(NewMessageQueueFlags::user_read()));
    assert!(rw.contains(rw));
    assert!(rw.contains(NewMessageQueueFlags::empty()));
    assert!(!rw.contains(NewMessageQueueFlags::user_rwx()));
    assert!(NewMessageQueueFlags::all().contains(rw));
    assert!(!NewMessageQueueFlags::empty().contains(rw));
    let both = SendReceiveFlags::all();
    assert!(both.contains(SendReceiveFlags::ipc_nowait()));
    assert!(!SendReceiveFlags::ipc_nowait().contains(both));
}

#[test]
fn is_empty_holds_of_the_empty_set_alone() {
    assert!(NewMessageQueueFlags::empty().is_empty());
    assert!(!NewMessageQueueFlags::other_execute().is_empty());
    assert!(!NewMessageQueueFlags::default().is_empty());
    assert!(SendReceiveFlags::empty().is_empty());
    assert!(!SendReceiveFlags::msg_noerror().is_empty());
}

#[test]
fn from_bits_refuses_unnamed_bits() {
    assert_eq!(NewMessageQueueFlags::from_bits(0o1700), Some(NewMessageQueueFlags::default()));
    assert_eq!(NewMessageQueueFlags::from_bits(0), Some(NewMessageQueueFlags::empty()));
    assert_eq!(NewMessageQueueFlags::from_bits(0o3777), Some(NewMessageQueueFlags::all()));
    assert_eq!(NewMessageQueueFlags::from_bits(0o4000), None);
    assert_eq!(NewMessageQueueFlags::from_bits(0o4001), None);
    assert_eq!(NewMessageQueueFlags::from_bits(-1), None);
    assert_eq!(NewMessageQueueFlags::from_bits(i32::MIN), None);
    assert_eq!(SendReceiveFlags::from_bits(0o4000), Some(SendReceiveFlags::ipc_nowait()));
    assert_eq!(SendReceiveFlags::from_bits(0o14000), Some(SendReceiveFlags::all()));
    assert_eq!(SendReceiveFlags::from_bits(0o1000), None);
    assert_eq!(SendReceiveFlags::from_bits(0o14001), None);
    assert_eq!(SendReceiveFlags::from_bits(-1), None);
}

#[test]
fn from_bits_truncate_drops_unnamed_bits() {
    assert_eq!(NewMessageQueueFlags::from_bits_truncate(0o1700).bits(), 0o1700);
    assert_eq!(NewMessageQueueFlags::from_bits_truncate(0o7777).bits(), 0o3777);
    assert_eq!(NewMessageQueueFlags::from_bits_truncate(-1), NewMessageQueueFlags::all());
    assert_eq!(NewMessageQueueFlags::from_bits_truncate(0o4000).bits(), 0);
    assert_eq!(SendReceiveFlags::from_bits_truncate(0o7777).bits(), 0o4000);
    assert_eq!(SendReceiveFlags::from_bits_truncate(-1), SendReceiveFlags::all());
    assert_eq!(SendReceiveFlags::from_bits_truncate(0o3777).bits(), 0);
}
