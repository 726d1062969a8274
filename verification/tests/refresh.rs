use oak_launcher::refresh::{
    Refresh, RefreshAction, RefreshEvent, RefreshFailure, REFRESH_INTERVAL_MILLIS,
};

fn step(refresh: &mut Refresh, event: RefreshEvent<u32, u8>) -> RefreshAction<u32, u8> {
    assert!(refresh.admits(&event));
    refresh.step(event)
}

#[test]
fn refresh_every_ten_minutes() {
    assert_eq!(REFRESH_INTERVAL_MILLIS, 600_000);
}

#[test]
fn refresh_goes_round() {
    let mut refresh = Refresh::new();
    for round in 0..3u8 {
        let lookup_data = u32::from(round);
        assert_eq!(
            step(&mut refresh, RefreshEvent::Loaded { lookup_data }),
            RefreshAction::Encode { lookup_data }
        );
        assert_eq!(
            step(&mut refresh, RefreshEvent::Encoded { message: vec![round] }),
            RefreshAction::Send { message: vec![round] }
        );
        assert_eq!(step(&mut refresh, RefreshEvent::Sent), RefreshAction::Wait);
        assert!(!refresh.admits(&RefreshEvent::<u32, u8>::Loaded { lookup_data }));
        assert_eq!(step(&mut refresh, RefreshEvent::Due), RefreshAction::Load);
    }
}

#[test]
fn failures_end_the_refresh() {
    let mut refresh = Refresh::new();
    let action = step(&mut refresh, RefreshEvent::LoadFailed { cause: 1 });
    assert_eq!(action, RefreshAction::Panic { failure: RefreshFailure::Load, cause: 1 });
    assert!(!refresh.admits(&RefreshEvent::<u32, u8>::Due));

    let mut refresh = Refresh::new();
    step(&mut refresh, RefreshEvent::Loaded { lookup_data: 1 });
    let action = step(&mut refresh, RefreshEvent::EncodeFailed { cause: 2 });
    assert_eq!(action, RefreshAction::Panic { failure: RefreshFailure::Encode, cause: 2 });

    let mut refresh = Refresh::new();
    step(&mut refresh, RefreshEvent::Loaded { lookup_data: 1 });
    step(&mut refresh, RefreshEvent::Encoded { message: vec![] });
    let action = step(&mut refresh, RefreshEvent::SendFailed { cause: 3 });
    assert_eq!(action, RefreshAction::Panic { failure: RefreshFailure::Send, cause: 3 });
}

#[test]
fn refresh_failure_texts() {
    assert_eq!(RefreshFailure::Load.text(), "failed to load lookup data");
    assert_eq!(RefreshFailure::Encode.text(), "failed to encode lookup data");
    assert_eq!(RefreshFailure::Send.text(), "failed to send lookup data");
}
