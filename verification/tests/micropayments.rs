use intelligence_rail::ledger::{Address, Party, Transfer};
use intelligence_rail::micropayments::{
    MicropaymentsContract, PaymentStream, StreamAction, StreamError, StreamEvent, StreamStatus,
};

fn addr(key: &str) -> Address {
    Address::from_text(key.to_string())
}

fn setup() -> MicropaymentsContract {
    MicropaymentsContract::new()
}

fn sender() -> Address {
    addr("GSENDERAAAAAAAAAAAAAAAAAAAAAAAAAAAAAAAAAAAAAAAAAAAAAAAAA")
}

fn recipient() -> Address {
    addr("GRECIPIENTAAAAAAAAAAAAAAAAAAAAAAAAAAAAAAAAAAAAAAAAAAAAAA")
}

fn token() -> Address {
    addr("CTOKENAAAAAAAAAAAAAAAAAAAAAAAAAAAAAAAAAAAAAAAAAAAAAAAAAA")
}

#[test]
fn test_open_stream() {
    let mut client = setup();
    let stream_id = client
        .open_stream(sender(), recipient(), token(), 10_000_000, 100, 3600, 0)
        .unwrap();

    assert_eq!(stream_id, 1);
    assert_eq!(client.stream_count(), 1);

    let stream = client.get_stream(1).unwrap();
    assert_eq!(stream.deposit, 10_000_000);
    assert_eq!(stream.status, StreamStatus::Active);
}

#[test]
fn test_withdraw_accrued() {
    let mut client = setup();
    client.open_stream(sender(), recipient(), token(), 10_000_000, 1_000, 3600, 0).unwrap();

    // Advance time by 100 seconds → 1_000 * 100 = 100_000 stroops earned
    let now: u64 = 100;

    let withdrawn = client.withdraw(recipient(), 1, now).unwrap();
    assert_eq!(withdrawn, 100_000);
}

#[test]
fn test_cancel_stream_refunds_sender() {
    let mut client = setup();
    client.open_stream(sender(), recipient(), token(), 10_000_000, 100, 3600, 0).unwrap();

    client.cancel_stream(sender(), 1, 0).unwrap();

    let stream = client.get_stream(1).unwrap();
    assert_eq!(stream.status, StreamStatus::Cancelled);
}

#[test]
fn test_pause_and_resume() {
    let mut client = setup();
    client.open_stream(sender(), recipient(), token(), 10_000_000, 100, 7200, 0).unwrap();

    client.pause_stream(sender(), 1, 0).unwrap();
    let stream = client.get_stream(1).unwrap();
    assert_eq!(stream.status, StreamStatus::Paused);

    client.resume_stream(sender(), 1, 0).unwrap();
    let stream = client.get_stream(1).unwrap();
    assert_eq!(stream.status, StreamStatus::Active);
}

// ---------------------------------------------------------------------------
// Further cases of the contracts and laws.

fn stream(status: StreamStatus, deposit: i128, rate: i128, withdrawn: i128, last: u64) -> PaymentStream {
    PaymentStream {
        id: 1,
        sender: sender(),
        recipient: recipient(),
        token: token(),
        deposit,
        rate_per_second: rate,
        start_time: 0,
        end_time: 1_000,
        last_settled: last,
        withdrawn,
        banked_seconds: 0,
        paused_at: 0,
        status,
    }
}

fn pay_amount(a: &StreamAction) -> (String, String, i128) {
    match a {
        StreamAction::Pay(Transfer { from, to, amount, .. }) => {
            let name = |p: &Party| match p {
                Party::ThisContract => "contract".to_string(),
                Party::Account(a) => a.text().clone(),
            };
            (name(from), name(to), *amount)
        }
        other => panic!("not a payment: {:?}", other),
    }
}

#[test]
fn claimable_formula() {
    let s = stream(StreamStatus::Active, 1_000, 7, 100, 10);
    // 5 seconds at 7 per second
    assert_eq!(s.claimable(15), 35);
    // capped by what remains of the deposit (900)
    assert_eq!(s.claimable(10_000), 900);
    // no time before the last settlement counts
    assert_eq!(s.claimable(3), 0);
    assert_eq!(s.checked_claimable(15), Some(35));
    for status in [StreamStatus::Paused, StreamStatus::Completed, StreamStatus::Cancelled] {
        assert_eq!(stream(status, 1_000, 7, 100, 10).claimable(500), 0);
    }
}

#[test]
fn claimable_overflow_is_detected() {
    let s = stream(StreamStatus::Active, 1_000, i128::MAX, 0, 0);
    assert_eq!(s.checked_claimable(2), None);
    assert_eq!(s.checked_claimable(1), Some(1_000));
    let s = stream(StreamStatus::Active, i128::MAX, 1, -1, 0);
    assert_eq!(s.checked_claimable(1), None);
    let s = stream(StreamStatus::Paused, i128::MAX, i128::MAX, -1, 0);
    assert_eq!(s.checked_claimable(5), None);
    let s = stream(StreamStatus::Completed, i128::MAX, i128::MAX, -1, 0);
    assert_eq!(s.checked_claimable(5), Some(0));
}

#[test]
fn open_stream_rejects_bad_amounts_and_queues_deposit() {
    let mut c = setup();
    assert_eq!(
        c.open_stream(sender(), recipient(), token(), 0, 1, 10, 0).unwrap_err(),
        StreamError::NonPositiveDeposit
    );
    assert_eq!(
        c.open_stream(sender(), recipient(), token(), 5, 0, 10, 0).unwrap_err(),
        StreamError::NonPositiveRate
    );
    assert_eq!(
        c.open_stream(sender(), recipient(), token(), 5, 1, u64::MAX, 1).unwrap_err(),
        StreamError::ArithmeticOverflow
    );
    assert_eq!(c.stream_count(), 0);
    assert!(c.take_actions().is_empty());

    let id = c.open_stream(sender(), recipient(), token(), 500, 2, 60, 1_000).unwrap();
    assert_eq!(id, 1);
    let s = c.get_stream(1).unwrap();
    assert_eq!((s.start_time, s.end_time, s.last_settled, s.withdrawn), (1_000, 1_060, 1_000, 0));
    assert_eq!(s.recipient.text(), recipient().text());
    let actions = c.take_actions();
    assert_eq!(actions.len(), 2);
    assert_eq!(pay_amount(&actions[0]), (sender().text().clone(), "contract".to_string(), 500));
    match &actions[1] {
        StreamAction::Emit(StreamEvent::Opened { sender: s, stream_id, deposit }) => {
            assert_eq!(s.text(), sender().text());
            assert_eq!((*stream_id, *deposit), (1, 500));
        }
        other => panic!("unexpected action {:?}", other),
    }
    assert_eq!(c.open_stream(sender(), recipient(), token(), 5, 1, 1, 0).unwrap(), 2);
    assert_eq!(c.stream_count(), 2);
}

#[test]
fn stream_counter_overflow_is_refused() {
    let mut c = MicropaymentsContract::restore(u64::MAX, vec![]);
    assert_eq!(
        c.open_stream(sender(), recipient(), token(), 5, 1, 1, 0).unwrap_err(),
        StreamError::ArithmeticOverflow
    );
}

#[test]
fn withdraw_checks_caller_and_amount() {
    let mut c = setup();
    c.open_stream(sender(), recipient(), token(), 1_000, 10, 3600, 0).unwrap();
    c.take_actions();
    assert_eq!(c.withdraw(recipient(), 2, 10).unwrap_err(), StreamError::StreamNotFound);
    assert_eq!(c.withdraw(sender(), 1, 10).unwrap_err(), StreamError::NotStreamRecipient);
    assert_eq!(c.withdraw(recipient(), 1, 0).unwrap_err(), StreamError::NothingToWithdraw);
    assert!(c.take_actions().is_empty());

    assert_eq!(c.withdraw(recipient(), 1, 30).unwrap(), 300);
    // settled at 30: nothing more can be claimed then
    assert_eq!(c.claimable_amount(1, 30), Ok(0));
    assert_eq!(c.withdraw(recipient(), 1, 30).unwrap_err(), StreamError::NothingToWithdraw);
    let s = c.get_stream(1).unwrap();
    assert_eq!((s.withdrawn, s.last_settled, s.status), (300, 30, StreamStatus::Active));
    let actions = c.take_actions();
    assert_eq!(pay_amount(&actions[0]), ("contract".to_string(), recipient().text().clone(), 300));
}

#[test]
fn withdraw_completes_exhausted_or_ended_streams() {
    let mut c = setup();
    c.open_stream(sender(), recipient(), token(), 1_000, 10, 3600, 0).unwrap();
    // 200 s would earn 2000, capped at the deposit
    assert_eq!(c.withdraw(recipient(), 1, 200).unwrap(), 1_000);
    let s = c.get_stream(1).unwrap();
    assert_eq!((s.withdrawn, s.status), (1_000, StreamStatus::Completed));
    assert_eq!(c.claimable_amount(1, 500), Ok(0));

    let mut c = setup();
    c.open_stream(sender(), recipient(), token(), 1_000_000, 1, 50, 0).unwrap();
    assert_eq!(c.withdraw(recipient(), 1, 50).unwrap(), 50);
    assert_eq!(c.get_stream(1).unwrap().status, StreamStatus::Completed);
}

#[test]
fn cancel_splits_remaining_deposit() {
    let mut c = setup();
    c.open_stream(sender(), recipient(), token(), 1_000, 10, 3600, 0).unwrap();
    c.withdraw(recipient(), 1, 20).unwrap(); // 200 withdrawn
    c.take_actions();
    assert_eq!(c.cancel_stream(recipient(), 1, 50).unwrap_err(), StreamError::NotStreamSender);
    assert_eq!(c.cancel_stream(sender(), 9, 50).unwrap_err(), StreamError::StreamNotFound);
    c.cancel_stream(sender(), 1, 50).unwrap(); // 300 earned, 500 refunded
    let actions = c.take_actions();
    assert_eq!(actions.len(), 3);
    assert_eq!(pay_amount(&actions[0]), ("contract".to_string(), recipient().text().clone(), 300));
    assert_eq!(pay_amount(&actions[1]), ("contract".to_string(), sender().text().clone(), 500));
    match &actions[2] {
        StreamAction::Emit(StreamEvent::Cancelled { stream_id, .. }) => assert_eq!(*stream_id, 1),
        other => panic!("unexpected action {:?}", other),
    }
    let s = c.get_stream(1).unwrap();
    assert_eq!((s.withdrawn, s.status, s.last_settled), (500, StreamStatus::Cancelled, 20));
    assert_eq!(c.cancel_stream(sender(), 1, 60).unwrap_err(), StreamError::StreamClosed);
}

#[test]
fn cancel_of_fully_earned_stream_pays_recipient_only() {
    let mut c = setup();
    c.open_stream(sender(), recipient(), token(), 100, 10, 3600, 0).unwrap();
    c.take_actions();
    c.cancel_stream(sender(), 1, 500).unwrap();
    let actions = c.take_actions();
    assert_eq!(actions.len(), 2);
    assert_eq!(pay_amount(&actions[0]), ("contract".to_string(), recipient().text().clone(), 100));
}

#[test]
fn cancel_of_paused_stream_refunds_everything_left() {
    let mut c = setup();
    c.open_stream(sender(), recipient(), token(), 1_000, 10, 3600, 0).unwrap();
    c.pause_stream(sender(), 1, 0).unwrap();
    c.take_actions();
    c.cancel_stream(sender(), 1, 90).unwrap();
    let actions = c.take_actions();
    assert_eq!(actions.len(), 2);
    assert_eq!(pay_amount(&actions[0]), ("contract".to_string(), sender().text().clone(), 1_000));
}

#[test]
fn accrual_stops_at_end_time() {
    let mut s = stream(StreamStatus::Active, 10_000_000, 100, 0, 0);
    s.end_time = 3600;
    assert_eq!(s.claimable(3600), 360_000);
    assert_eq!(s.claimable(7200), 360_000);
    assert_eq!(s.claimable(1800), 180_000);

    let mut c = setup();
    c.open_stream(sender(), recipient(), token(), 10_000_000, 100, 3600, 0).unwrap();
    assert_eq!(c.claimable_amount(1, 7200), Ok(360_000));
    assert_eq!(c.withdraw(recipient(), 1, 7200).unwrap(), 360_000);
    assert_eq!(c.get_stream(1).unwrap().status, StreamStatus::Completed);
}

#[test]
fn cancel_after_pause_pays_earned_part() {
    let mut c = setup();
    c.open_stream(sender(), recipient(), token(), 10_000_000, 100, 3600, 0).unwrap();
    c.pause_stream(sender(), 1, 100).unwrap();
    let paused = c.get_stream(1).unwrap();
    assert_eq!((paused.paused_at, paused.last_settled), (100, 0));
    assert_eq!(c.claimable_amount(1, 150), Ok(10_000));
    c.take_actions();
    c.cancel_stream(sender(), 1, 200).unwrap();
    let actions = c.take_actions();
    assert_eq!(actions.len(), 3);
    assert_eq!(pay_amount(&actions[0]), ("contract".to_string(), recipient().text().clone(), 10_000));
    assert_eq!(
        pay_amount(&actions[1]),
        ("contract".to_string(), sender().text().clone(), 9_990_000)
    );
    let s = c.get_stream(1).unwrap();
    assert_eq!((s.withdrawn, s.status), (10_000, StreamStatus::Cancelled));
}

#[test]
fn earnings_survive_pause_and_resume() {
    let mut c = setup();
    c.open_stream(sender(), recipient(), token(), 1_000, 10, 3600, 0).unwrap();
    c.pause_stream(sender(), 1, 30).unwrap();
    // banked 300, frozen while paused
    assert_eq!(c.claimable_amount(1, 40), Ok(300));
    assert_eq!(c.claimable_amount(1, 4_000), Ok(300));
    c.resume_stream(sender(), 1, 50).unwrap();
    let s = c.get_stream(1).unwrap();
    assert_eq!((s.banked_seconds, s.last_settled, s.paused_at), (30, 50, 0));
    assert_eq!(c.claimable_amount(1, 50), Ok(300));
    assert_eq!(c.claimable_amount(1, 55), Ok(350));
    assert_eq!(c.withdraw(recipient(), 1, 55).unwrap(), 350);
    let s = c.get_stream(1).unwrap();
    assert_eq!((s.withdrawn, s.banked_seconds, s.last_settled), (350, 0, 55));
}

#[test]
fn paused_stream_can_pay_out_banked_earnings() {
    let mut c = setup();
    c.open_stream(sender(), recipient(), token(), 1_000, 10, 3600, 0).unwrap();
    c.pause_stream(sender(), 1, 20).unwrap();
    assert_eq!(c.withdraw(recipient(), 1, 90).unwrap(), 200);
    let s = c.get_stream(1).unwrap();
    assert_eq!((s.withdrawn, s.banked_seconds, s.status), (200, 0, StreamStatus::Paused));
    assert_eq!(c.withdraw(recipient(), 1, 95).unwrap_err(), StreamError::NothingToWithdraw);
}

#[test]
fn paused_stream_never_claims_negative() {
    let s = stream(StreamStatus::Paused, 5, 7, 10, 0);
    assert_eq!(s.claimable(100), 0);
    // an active stream keeps the plain capped amount
    let s = stream(StreamStatus::Active, 5, 7, 10, 0);
    assert_eq!(s.claimable(100), -5);
}

#[test]
fn pause_changes_only_status_and_pause_time() {
    let mut c = setup();
    c.open_stream(sender(), recipient(), token(), 1_000, 10, 3600, 0).unwrap();
    let before = c.get_stream(1).unwrap();
    c.pause_stream(sender(), 1, 10).unwrap();
    let after = c.get_stream(1).unwrap();
    assert_eq!(after.status, StreamStatus::Paused);
    assert_eq!(after.paused_at, 10);
    assert_eq!(
        (after.last_settled, after.withdrawn, after.banked_seconds, after.deposit),
        (before.last_settled, before.withdrawn, before.banked_seconds, before.deposit)
    );
    // resuming at the last settlement time right after opening restores it
    let mut c = setup();
    c.open_stream(sender(), recipient(), token(), 1_000, 10, 3600, 0).unwrap();
    c.pause_stream(sender(), 1, 0).unwrap();
    c.resume_stream(sender(), 1, 0).unwrap();
    let s = c.get_stream(1).unwrap();
    assert_eq!(
        (s.status, s.last_settled, s.banked_seconds, s.paused_at),
        (StreamStatus::Active, 0, 0, 0)
    );
}

#[test]
fn pause_needs_no_arithmetic() {
    let mut c = setup();
    c.open_stream(sender(), recipient(), token(), 1_000, i128::MAX, 3600, 0).unwrap();
    c.pause_stream(sender(), 1, 2).unwrap();
    assert_eq!(c.get_stream(1).unwrap().status, StreamStatus::Paused);
    assert_eq!(c.claimable_amount(1, 5), Err(StreamError::ArithmeticOverflow));
}

#[test]
fn split_withdrawal_pays_the_same() {
    let mut a = setup();
    a.open_stream(sender(), recipient(), token(), 1_000_000, 7, 3600, 0).unwrap();
    let mut b = setup();
    b.open_stream(sender(), recipient(), token(), 1_000_000, 7, 3600, 0).unwrap();
    let first = a.withdraw(recipient(), 1, 40).unwrap();
    let second = a.withdraw(recipient(), 1, 100).unwrap();
    let single = b.withdraw(recipient(), 1, 100).unwrap();
    assert_eq!((first, second, single), (280, 420, 700));
    assert_eq!(a.get_stream(1).unwrap().withdrawn, b.get_stream(1).unwrap().withdrawn);
}

#[test]
fn pause_and_resume_rules() {
    let mut c = setup();
    c.open_stream(sender(), recipient(), token(), 1_000, 10, 3600, 0).unwrap();
    assert_eq!(c.pause_stream(recipient(), 1, 0).unwrap_err(), StreamError::NotStreamSender);
    assert_eq!(c.resume_stream(sender(), 1, 5).unwrap_err(), StreamError::StreamNotPaused);
    c.pause_stream(sender(), 1, 0).unwrap();
    assert_eq!(c.pause_stream(sender(), 1, 0).unwrap_err(), StreamError::StreamNotActive);
    // paused streams accrue nothing
    assert_eq!(c.claimable_amount(1, 40), Ok(0));
    assert_eq!(c.withdraw(recipient(), 1, 40).unwrap_err(), StreamError::NothingToWithdraw);
    c.resume_stream(sender(), 1, 40).unwrap();
    // accrual restarts from the resume time
    assert_eq!(c.claimable_amount(1, 45), Ok(50));
    assert_eq!(c.get_stream(1).unwrap().last_settled, 40);
}

#[test]
fn closed_streams_are_final() {
    let mut c = setup();
    c.open_stream(sender(), recipient(), token(), 1_000, 10, 3600, 0).unwrap();
    c.cancel_stream(sender(), 1, 10).unwrap();
    assert_eq!(c.pause_stream(sender(), 1, 0).unwrap_err(), StreamError::StreamNotActive);
    assert_eq!(c.resume_stream(sender(), 1, 20).unwrap_err(), StreamError::StreamNotPaused);
    assert_eq!(c.cancel_stream(sender(), 1, 20).unwrap_err(), StreamError::StreamClosed);
    assert_eq!(c.withdraw(recipient(), 1, 20).unwrap_err(), StreamError::NothingToWithdraw);
}

#[test]
fn claimable_amount_of_unknown_stream_is_zero() {
    let c = setup();
    assert_eq!(c.claimable_amount(7, 100), Ok(0));
    assert!(c.get_stream(7).is_none());
}

#[test]
fn overflowing_streams_are_refused() {
    let mut s = stream(StreamStatus::Active, 1_000, i128::MAX, 0, 0);
    s.id = 4;
    let mut c = MicropaymentsContract::restore(4, vec![s]);
    assert_eq!(c.claimable_amount(4, 10), Err(StreamError::ArithmeticOverflow));
    assert_eq!(c.withdraw(recipient(), 4, 10).unwrap_err(), StreamError::ArithmeticOverflow);
    assert_eq!(c.cancel_stream(sender(), 4, 10).unwrap_err(), StreamError::ArithmeticOverflow);

    let mut p = stream(StreamStatus::Paused, i128::MAX, 1, -1, 0);
    p.id = 5;
    let mut c = MicropaymentsContract::restore(5, vec![p]);
    assert_eq!(c.cancel_stream(sender(), 5, 10).unwrap_err(), StreamError::ArithmeticOverflow);
    assert_eq!(c.get_stream(5).unwrap().status, StreamStatus::Paused);
}
