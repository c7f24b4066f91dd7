use lctwitch::detour::{Detour, HookEngine, HookError, Redirect};

#[test]
fn attach_and_detach_roundtrip() {
    let mut engine = HookEngine::new();
    let detour = Detour::new(&mut engine, 0x10, 0x20).expect("attach should succeed");
    assert_eq!(detour.source(), 0x10);
    assert_eq!(detour.target(), 0x20);
    assert!(engine.is_attached(0x10));
    assert_eq!(engine.count(), 1);

    detour.detach(&mut engine).expect("detach should succeed");
    assert!(!engine.is_attached(0x10));
    assert_eq!(engine.count(), 0);
}

#[test]
fn null_address_is_refused() {
    let mut engine = HookEngine::new();
    let result = Detour::new(&mut engine, 0, 0x20);
    assert_eq!(result.err(), Some(HookError::InvalidSource(0)));
    assert_eq!(engine.count(), 0);
}

#[test]
fn double_attach_is_refused() {
    let mut engine = HookEngine::new();
    let _first = Detour::new(&mut engine, 0x10, 0x20).expect("first attach should succeed");
    let second = Detour::new(&mut engine, 0x10, 0x30);
    assert_eq!(second.err(), Some(HookError::AlreadyAttached(0x10)));
    assert!(engine.is_attached(0x10));
    assert_eq!(engine.count(), 1);
}

#[test]
fn detach_of_unknown_redirect_is_refused() {
    let mut engine = HookEngine::new();
    let detour = Detour::new(&mut engine, 0x10, 0x20).expect("attach should succeed");
    let mut other = HookEngine::new();
    assert_eq!(detour.detach(&mut other), Err(HookError::NotAttached(0x10)));
}

#[test]
fn failed_second_attach_rolls_back_the_first() {
    let mut engine = HookEngine::new();
    let pairs = vec![
        Redirect { source: 0x10, target: 0x20 },
        Redirect { source: 0, target: 0x30 },
    ];
    let result = engine.attach_all(&pairs);
    assert_eq!(result, Err(HookError::InvalidSource(0)));
    // The whole transaction aborted: the first address is un-redirected.
    assert!(!engine.is_attached(0x10));
    assert_eq!(engine.count(), 0);
}

#[test]
fn failed_batch_keeps_earlier_state_intact() {
    let mut engine = HookEngine::new();
    let _standing = Detour::new(&mut engine, 0x50, 0x60).expect("attach should succeed");
    let pairs = vec![
        Redirect { source: 0x10, target: 0x20 },
        Redirect { source: 0x50, target: 0x70 },
    ];
    let result = engine.attach_all(&pairs);
    assert_eq!(result, Err(HookError::AlreadyAttached(0x50)));
    assert!(!engine.is_attached(0x10));
    assert!(engine.is_attached(0x50));
    assert_eq!(engine.count(), 1);
}

#[test]
fn successful_batch_installs_all_in_order() {
    let mut engine = HookEngine::new();
    let pairs = vec![
        Redirect { source: 0x10, target: 0x20 },
        Redirect { source: 0x30, target: 0x40 },
    ];
    assert_eq!(engine.attach_all(&pairs), Ok(()));
    assert!(engine.is_attached(0x10));
    assert!(engine.is_attached(0x30));
    assert_eq!(engine.count(), 2);
}
