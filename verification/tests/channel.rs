use handy::channel::{report_send, SendOutcome, SendReport, StreamingAudioChannel, CHANNEL_CAPACITY};

#[test]
fn frames_arrive_in_order() {
    let channel: StreamingAudioChannel<Vec<f32>> = StreamingAudioChannel::new();
    channel.try_send(vec![0.1, 0.2]);
    channel.try_send(vec![0.3]);
    assert_eq!(channel.receiver().try_recv(), Ok(vec![0.1, 0.2]));
    assert_eq!(channel.receiver().try_recv(), Ok(vec![0.3]));
    assert!(channel.receiver().try_recv().is_err());
}

#[test]
fn full_channel_drops_without_blocking() {
    let channel: StreamingAudioChannel<u32> = StreamingAudioChannel::new();
    for i in 0..(CHANNEL_CAPACITY as u32 + 25) {
        channel.try_send(i);
    }
    assert_eq!(channel.receiver().len(), CHANNEL_CAPACITY);
    assert_eq!(channel.receiver().try_recv(), Ok(0));
}

#[test]
fn drops_are_counted_and_every_hundredth_is_reported() {
    let channel: StreamingAudioChannel<u32> = StreamingAudioChannel::default();
    for i in 0..CHANNEL_CAPACITY as u32 {
        assert!(matches!(channel.try_send(i), SendReport::Queued));
    }
    for d in 0..250u64 {
        match channel.try_send(0) {
            SendReport::Dropped {
                previously_dropped,
                warn,
            } => {
                assert_eq!(previously_dropped, d);
                assert_eq!(warn, d % 100 == 0);
            }
            _ => panic!("expected a drop"),
        }
    }
}

#[test]
fn reports_follow_the_send_outcome() {
    assert!(matches!(report_send(SendOutcome::Sent, 7), SendReport::Queued));
    assert!(matches!(report_send(SendOutcome::Disconnected, 0), SendReport::ReceiverGone));
    assert!(matches!(
        report_send(SendOutcome::Full, 0),
        SendReport::Dropped { previously_dropped: 0, warn: true }
    ));
    assert!(matches!(
        report_send(SendOutcome::Full, 57),
        SendReport::Dropped { previously_dropped: 57, warn: false }
    ));
    assert!(matches!(
        report_send(SendOutcome::Full, 300),
        SendReport::Dropped { previously_dropped: 300, warn: true }
    ));
}
