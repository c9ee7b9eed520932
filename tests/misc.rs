use nft_indexer::channel::Channel;
use nft_indexer::reconnect::{Reconnect, MAX_RECONNECT_DELAY_MS};
use nft_indexer::schedule::CronExpression;

#[test]
fn schedules_name_their_cron_expressions() {
    assert_eq!(CronExpression::EverySecond.to_str(), "* * * * * *");
    assert_eq!(CronExpression::Every10Seconds.to_str(), "*/10 * * * * *");
    assert_eq!(CronExpression::EveryDayAtNoon.to_str(), "0 12 * * *");
    assert_eq!(CronExpression::MondayToFridayAt9_30AM.to_str(), "0 30 09 * * 1-5");
}

#[test]
fn channel_names_round_trip() {
    assert_eq!(Channel::StreamTx.to_str(), "stream_tx_channel");
    assert_eq!(Channel::from_str("stream_tx_channel"), Channel::StreamTx);
    assert_eq!(Channel::parse(Channel::StreamTx.to_str()), Some(Channel::StreamTx));
    assert_eq!(Channel::parse("other"), None);
}

#[test]
fn reconnect_delays_grow_to_a_cap_and_reset() {
    let mut r = Reconnect::new();
    let delays: Vec<u64> = (0..10).map(|_| r.on_failure()).collect();
    assert_eq!(delays, vec![0, 250, 500, 1000, 2000, 4000, 8000, 16000, 30000, 30000]);
    for _ in 0..100 {
        assert_eq!(r.on_failure(), MAX_RECONNECT_DELAY_MS);
    }
    r.on_message();
    assert_eq!(r.on_failure(), 0);
}
