//! Properties of payment streams that span several calls.
use vstd::prelude::*;

use crate::ledger::{Address, Party, Transfer};
use crate::micropayments::{
    fits_i128, new_stream, MicropaymentsModel, PaymentStream, StreamAction, StreamError,
    StreamEvent, StreamStatus,
};

verus! {

/// How one action changes what the contract holds of the token named `token`.
pub open spec fn held_change_in(action: StreamAction, token: Seq<char>) -> int {
    match action {
        StreamAction::Pay(t) => if t.token@ == token {
            (if t.to is ThisContract {
                t.amount as int
            } else {
                0
            }) - (if t.from is ThisContract {
                t.amount as int
            } else {
                0
            })
        } else {
            0
        },
        StreamAction::Emit(_) => 0,
    }
}

/// How a sequence of actions changes what the contract holds of `token`.
pub open spec fn held_change(actions: Seq<StreamAction>, token: Seq<char>) -> int
    decreases actions.len(),
{
    if actions.len() == 0 {
        0
    } else {
        held_change(actions.drop_last(), token) + held_change_in(actions.last(), token)
    }
}

/// What an open stream still owes in `token`: the rest of its deposit.
pub open spec fn owed_on(s: PaymentStream, token: Seq<char>) -> int {
    if s.token@ == token && s.is_open() {
        s.remaining()
    } else {
        0
    }
}

/// What the streams numbered 1 to `n` still owe in `token`.
pub open spec fn owed_upto(streams: Map<u64, PaymentStream>, token: Seq<char>, n: nat) -> int
    decreases n,
{
    if n == 0 {
        0
    } else {
        owed_upto(streams, token, (n - 1) as nat) + if streams.contains_key(n as u64) {
            owed_on(streams[n as u64], token)
        } else {
            0
        }
    }
}

/// What all streams of the instance still owe in `token`.
pub open spec fn owed(m: MicropaymentsModel, token: Seq<char>) -> int {
    owed_upto(m.streams, token, m.stream_count as nat)
}

proof fn lemma_held_change_append(a: Seq<StreamAction>, b: Seq<StreamAction>, token: Seq<char>)
    ensures
        held_change(a + b, token) == held_change(a, token) + held_change(b, token),
    decreases b.len(),
{
    if b.len() > 0 {
        lemma_held_change_append(a, b.drop_last(), token);
        assert((a + b).drop_last() =~= a + b.drop_last());
        assert((a + b).last() == b.last());
    } else {
        assert(a + b =~= a);
    }
}

proof fn lemma_held_change_single(x: StreamAction, token: Seq<char>)
    ensures
        held_change(seq![x], token) == held_change_in(x, token),
{
    assert(seq![x].drop_last() =~= Seq::<StreamAction>::empty());
    assert(seq![x].last() == x);
    assert(held_change(Seq::<StreamAction>::empty(), token) == 0);
}

proof fn lemma_held_change_pair(a: Seq<StreamAction>, x: StreamAction, y: StreamAction, token: Seq<char>)
    ensures
        held_change(a.push(x).push(y), token) == held_change(a, token) + held_change_in(x, token)
            + held_change_in(y, token),
{
    assert(a.push(x).push(y).drop_last() =~= a.push(x));
    assert(a.push(x).drop_last() =~= a);
    assert(a.push(x).push(y).last() == y);
    assert(a.push(x).last() == x);
    assert(held_change(a.push(x).push(y), token) == held_change(a.push(x), token) + held_change_in(
        y,
        token,
    ));
    assert(held_change(a.push(x), token) == held_change(a, token) + held_change_in(x, token));
}

proof fn lemma_owed_frame(streams: Map<u64, PaymentStream>, token: Seq<char>, n: nat, id: u64, s: PaymentStream)
    requires
        n < id,
    ensures
        owed_upto(streams.insert(id, s), token, n) == owed_upto(streams, token, n),
    decreases n,
{
    if n > 0 {
        lemma_owed_frame(streams, token, (n - 1) as nat, id, s);
    }
}

proof fn lemma_owed_update(
    streams: Map<u64, PaymentStream>,
    token: Seq<char>,
    n: nat,
    id: u64,
    s: PaymentStream,
)
    requires
        1 <= id <= n,
        n <= u64::MAX,
        streams.contains_key(id),
    ensures
        owed_upto(streams.insert(id, s), token, n) == owed_upto(streams, token, n) - owed_on(
            streams[id],
            token,
        ) + owed_on(s, token),
    decreases n,
{
    if n == id {
        lemma_owed_frame(streams, token, (n - 1) as nat, id, s);
    } else {
        lemma_owed_update(streams, token, (n - 1) as nat, id, s);
    }
}

/// A solvent stream never lets the recipient claim more than what remains of
/// the deposit, nor a negative amount; its claimable amount is computable
/// whenever what it earned fits in `i128`.
pub proof fn law_claimable_within_remaining(s: PaymentStream, now: u64)
    requires
        s.solvent(),
    ensures
        s.accrual_fits(now) <==> (s.is_open() ==> fits_i128(s.earned(now))),
        0 <= s.accrued(now) <= s.remaining(),
        s.is_open() ==> s.accrued(now) <= s.earned(now),
{
    let e = s.elapsed(now);
    let r = s.rate_per_second as int;
    assert(e * r >= 0) by (nonlinear_arith)
        requires
            e >= 0,
            r > 0,
    ;
}

/// A stream stops accruing at its end time: what it has earned at any later
/// time is what it had earned at `end_time`.
pub proof fn law_no_accrual_after_end(s: PaymentStream, now: u64)
    requires
        now >= s.end_time,
    ensures
        s.elapsed(now) == s.elapsed(s.end_time),
        s.earned(now) == s.earned(s.end_time),
        s.accrued(now) == s.accrued(s.end_time),
{
}

/// A paused stream accrues nothing more: from its pause on, the recipient
/// can claim the same amount at any time, and never a negative one.
pub proof fn law_paused_stream_is_frozen(s: PaymentStream, now: u64, later: u64)
    requires
        s.status == StreamStatus::Paused,
        now >= s.paused_at,
        later >= s.paused_at,
    ensures
        s.elapsed(now) == s.elapsed(later),
        s.accrued(now) == s.accrued(later),
        s.accrued(now) >= 0,
{
}

/// A completed or cancelled stream offers nothing.
pub proof fn law_closed_stream_accrues_nothing(s: PaymentStream, now: u64)
    requires
        !s.is_open(),
    ensures
        s.accrual_fits(now),
        s.elapsed(now) == 0,
        s.accrued(now) == 0,
{
}

/// Opening a stream refuses a deposit or rate that is not positive; otherwise
/// the stream gets the next id, is readable under it as opened (active,
/// settled at the opening time, ending `duration_secs` later) and is sound.
pub proof fn law_open_stream(
    m: MicropaymentsModel,
    sender: Address,
    recipient: Address,
    token: Address,
    deposit: i128,
    rate_per_second: i128,
    duration_secs: u64,
    now: u64,
)
    ensures
        deposit <= 0 ==> m.open_stream(
            sender,
            recipient,
            token,
            deposit,
            rate_per_second,
            duration_secs,
            now,
        ) == Err::<(MicropaymentsModel, u64), StreamError>(StreamError::NonPositiveDeposit),
        deposit > 0 && rate_per_second <= 0 ==> m.open_stream(
            sender,
            recipient,
            token,
            deposit,
            rate_per_second,
            duration_secs,
            now,
        ) == Err::<(MicropaymentsModel, u64), StreamError>(StreamError::NonPositiveRate),
        m.open_stream(sender, recipient, token, deposit, rate_per_second, duration_secs, now)
            matches Ok((post, id)) ==> {
            &&& id == m.stream_count + 1
            &&& post.stream_count == id
            &&& post.stream(id) == Some(
                new_stream(
                    id,
                    sender,
                    recipient,
                    token,
                    deposit,
                    rate_per_second,
                    now,
                    (now + duration_secs) as u64,
                ),
            )
            &&& post.streams[id].sound()
        },
{
}

/// A fresh instance is sound.
pub proof fn law_fresh_instance_is_sound()
    ensures
        (MicropaymentsModel {
            stream_count: 0,
            streams: Map::empty(),
            actions: Seq::empty(),
        }).sound(),
{
}

/// Every call keeps the instance sound: stream ids stay exactly 1 to
/// `stream_count`, deposits positive, starts no later than ends, and no
/// stream ever has more withdrawn than deposited.
pub proof fn law_soundness_is_kept(
    m: MicropaymentsModel,
    caller: Address,
    other: Address,
    token: Address,
    deposit: i128,
    rate_per_second: i128,
    duration_secs: u64,
    stream_id: u64,
    now: u64,
)
    requires
        m.sound(),
    ensures
        m.open_stream(caller, other, token, deposit, rate_per_second, duration_secs, now) matches Ok(
            (post, _),
        ) ==> post.sound(),
        m.withdraw(caller, stream_id, now) matches Ok((post, _)) ==> post.sound(),
        m.cancel_stream(caller, stream_id, now) matches Ok(post) ==> post.sound(),
        m.pause_stream(caller, stream_id, now) matches Ok(post) ==> post.sound(),
        m.resume_stream(caller, stream_id, now) matches Ok(post) ==> post.sound(),
{
    if m.streams.contains_key(stream_id) {
        law_claimable_within_remaining(m.streams[stream_id], now);
    }
}

/// A withdrawal pays out exactly what the stream accrued, adds it to the
/// amount withdrawn and settles the stream at `now`, so nothing more can be
/// claimed at that time; a stream whose deposit is used up, or whose end time
/// has come, is completed. The contract's holding of the stream's token drops
/// by the amount paid.
pub proof fn law_withdraw_settles(m: MicropaymentsModel, recipient: Address, stream_id: u64, now: u64)
    requires
        m.withdraw(recipient, stream_id, now) is Ok,
    ensures
        ({
            let (post, amount) = m.withdraw(recipient, stream_id, now)->Ok_0;
            let s = m.streams[stream_id];
            let t = post.streams[stream_id];
            &&& amount == s.accrued(now)
            &&& amount > 0
            &&& t.withdrawn == s.withdrawn + amount
            &&& t.last_settled == now
            &&& t.banked_seconds == 0
            &&& (t.withdrawn >= t.deposit || now >= t.end_time) ==> t.status
                == StreamStatus::Completed
            &&& !(t.withdrawn >= t.deposit || now >= t.end_time) ==> t.status == s.status
            &&& t.deposit == s.deposit && t.rate_per_second == s.rate_per_second
            &&& t.sender == s.sender && t.recipient == s.recipient && t.token == s.token
            &&& t.start_time == s.start_time && t.end_time == s.end_time
            &&& s.solvent() ==> t.accrued(now) == 0
            &&& held_change(post.actions, s.token@) == held_change(m.actions, s.token@) - amount
        }),
{
    let (post, amount) = m.withdraw(recipient, stream_id, now)->Ok_0;
    let s = m.streams[stream_id];
    let t = post.streams[stream_id];
    assert(t.fresh_seconds(now) == 0);
    assert(t.elapsed(now) == 0);
    assert(t.earned(now) == 0);
    lemma_held_change_pair(
        m.actions,
        post.actions[post.actions.len() - 2],
        post.actions[post.actions.len() - 1],
        s.token@,
    );
    assert(post.actions =~= m.actions.push(post.actions[post.actions.len() - 2]).push(
        post.actions[post.actions.len() - 1],
    ));
}

/// Cancelling a solvent open stream always succeeds for its sender when the
/// accrued amount is computable, and pays everything still held for the
/// stream out of the contract: what was earned (before a pause included) to
/// the recipient, only the unearned rest back to the sender.
pub proof fn law_cancel_pays_out_remaining(
    m: MicropaymentsModel,
    sender: Address,
    stream_id: u64,
    now: u64,
)
    requires
        m.streams.contains_key(stream_id),
        m.streams[stream_id].solvent(),
    ensures
        (m.streams[stream_id].sender@ == sender@ && m.streams[stream_id].is_open()
            && m.streams[stream_id].accrual_fits(now)) ==> m.cancel_stream(sender, stream_id, now)
            is Ok,
        m.cancel_stream(sender, stream_id, now) matches Ok(post) ==> {
            &&& post.streams[stream_id].status == StreamStatus::Cancelled
            &&& post.streams[stream_id].withdrawn == m.streams[stream_id].withdrawn
                + m.streams[stream_id].accrued(now)
            &&& held_change(post.actions, m.streams[stream_id].token@) == held_change(
                m.actions,
                m.streams[stream_id].token@,
            ) - m.streams[stream_id].remaining()
        },
{
    let s = m.streams[stream_id];
    law_claimable_within_remaining(s, now);
    if let Ok(post) = m.cancel_stream(sender, stream_id, now) {
        lemma_cancel_held_change(m, sender, stream_id, now, s.token@);
    }
}

/// How a successful cancellation changes what the contract holds of `token`.
proof fn lemma_cancel_held_change(
    m: MicropaymentsModel,
    sender: Address,
    stream_id: u64,
    now: u64,
    token: Seq<char>,
)
    requires
        m.cancel_stream(sender, stream_id, now) is Ok,
        m.streams[stream_id].solvent(),
    ensures
        held_change(m.cancel_stream(sender, stream_id, now)->Ok_0.actions, token) == held_change(
            m.actions,
            token,
        ) - owed_on(m.streams[stream_id], token),
{
    let s = m.streams[stream_id];
    law_claimable_within_remaining(s, now);
    let post = m.cancel_stream(sender, stream_id, now)->Ok_0;
    let earned = s.accrued(now) as i128;
    let refund = (s.remaining() - earned) as i128;
    let to_recipient = if earned > 0 {
        seq![
            StreamAction::Pay(
                Transfer {
                    token: s.token,
                    from: Party::ThisContract,
                    to: Party::Account(s.recipient),
                    amount: earned,
                },
            ),
        ]
    } else {
        Seq::<StreamAction>::empty()
    };
    let to_sender = if refund > 0 {
        seq![
            StreamAction::Pay(
                Transfer {
                    token: s.token,
                    from: Party::ThisContract,
                    to: Party::Account(sender),
                    amount: refund,
                },
            ),
        ]
    } else {
        Seq::<StreamAction>::empty()
    };
    let last = seq![StreamAction::Emit(StreamEvent::Cancelled { sender, stream_id })];
    assert(post.actions == m.actions + to_recipient + to_sender + last);
    lemma_held_change_append(m.actions + to_recipient + to_sender, last, token);
    lemma_held_change_append(m.actions + to_recipient, to_sender, token);
    lemma_held_change_append(m.actions, to_recipient, token);
    lemma_held_change_single(last[0], token);
    assert(last =~= seq![last[0]]);
    if earned > 0 {
        lemma_held_change_single(to_recipient[0], token);
        assert(to_recipient =~= seq![to_recipient[0]]);
    }
    if refund > 0 {
        lemma_held_change_single(to_sender[0], token);
        assert(to_sender =~= seq![to_sender[0]]);
    }
}

/// Pausing keeps what the stream earned up to the pause: while paused the
/// recipient can claim exactly that amount (cancelling pays it out), and
/// resuming banks it while streaming restarts from the resume time.
pub proof fn law_pause_keeps_earnings(
    m: MicropaymentsModel,
    sender: Address,
    stream_id: u64,
    paused_at: u64,
    later: u64,
    resumed_at: u64,
)
    requires
        m.pause_stream(sender, stream_id, paused_at) is Ok,
        m.streams[stream_id].solvent(),
        m.streams[stream_id].elapsed(paused_at) <= u64::MAX,
        later >= paused_at,
        resumed_at >= paused_at,
    ensures
        ({
            let s = m.streams[stream_id];
            let paused = m.pause_stream(sender, stream_id, paused_at)->Ok_0;
            let resumed = paused.resume_stream(sender, stream_id, resumed_at)->Ok_0;
            &&& paused.streams[stream_id].accrued(later) == s.accrued(paused_at)
            &&& paused.resume_stream(sender, stream_id, resumed_at) is Ok
            &&& resumed.streams[stream_id] == (PaymentStream {
                banked_seconds: s.elapsed(paused_at) as u64,
                last_settled: resumed_at,
                paused_at: 0,
                ..s
            })
            &&& resumed.streams[stream_id].accrued(resumed_at) == s.accrued(paused_at)
        }),
{
    let s = m.streams[stream_id];
    law_claimable_within_remaining(s, paused_at);
    let paused = m.pause_stream(sender, stream_id, paused_at)->Ok_0;
    let p = paused.streams[stream_id];
    assert(p.counted_until(later) == s.counted_until(paused_at));
    assert(p.elapsed(later) == s.elapsed(paused_at));
    assert(p.counted_until(resumed_at) == s.counted_until(paused_at));
    let resumed = paused.resume_stream(sender, stream_id, resumed_at)->Ok_0;
    let r = resumed.streams[stream_id];
    assert(r.fresh_seconds(resumed_at) == 0);
    assert(r.elapsed(resumed_at) == s.elapsed(paused_at));
}

/// Resume undoes pause: pausing an active stream (with no pause recorded)
/// and resuming it at its last settlement time gives back exactly the state
/// before.
pub proof fn law_pause_then_resume_restores(m: MicropaymentsModel, sender: Address, stream_id: u64)
    requires
        m.pause_stream(sender, stream_id, m.streams[stream_id].last_settled) is Ok,
        m.streams[stream_id].paused_at == 0,
    ensures
        ({
            let t = m.streams[stream_id].last_settled;
            let paused = m.pause_stream(sender, stream_id, t)->Ok_0;
            paused.resume_stream(sender, stream_id, t) == Ok::<MicropaymentsModel, StreamError>(m)
        }),
{
    let t = m.streams[stream_id].last_settled;
    let paused = m.pause_stream(sender, stream_id, t)->Ok_0;
    let resumed = paused.resume_stream(sender, stream_id, t)->Ok_0;
    assert(paused.streams[stream_id].fresh_seconds(t) == 0);
    assert(resumed.streams[stream_id] == m.streams[stream_id]);
    assert(resumed.streams =~= m.streams);
    assert(resumed =~= m);
}

/// Splitting a withdrawal neither loses nor duplicates funds: withdrawing
/// at `t1` and again at `t2` pays, in total, what one withdrawal at `t2`
/// would, and leaves the same amount withdrawn, as long as the stream's
/// earnings stay within what remains of the deposit.
pub proof fn law_split_withdrawal(m: MicropaymentsModel, recipient: Address, stream_id: u64, t1: u64, t2: u64)
    requires
        m.streams.contains_key(stream_id),
        m.streams[stream_id].status == StreamStatus::Active,
        m.streams[stream_id].recipient@ == recipient@,
        m.streams[stream_id].solvent(),
        m.streams[stream_id].last_settled < t1 < t2 <= m.streams[stream_id].end_time,
        m.streams[stream_id].earned(t2) <= m.streams[stream_id].remaining(),
    ensures
        ({
            let single = m.withdraw(recipient, stream_id, t2);
            let first = m.withdraw(recipient, stream_id, t1);
            &&& single is Ok
            &&& first is Ok
            &&& first->Ok_0.0.withdraw(recipient, stream_id, t2) is Ok
            &&& first->Ok_0.1 + first->Ok_0.0.withdraw(recipient, stream_id, t2)->Ok_0.1
                == single->Ok_0.1
            &&& first->Ok_0.0.withdraw(recipient, stream_id, t2)->Ok_0.0.streams[stream_id].withdrawn
                == single->Ok_0.0.streams[stream_id].withdrawn
        }),
{
    let s = m.streams[stream_id];
    let b = s.banked_seconds as int;
    let l = s.last_settled as int;
    let r = s.rate_per_second as int;
    let x1 = t1 as int;
    let x2 = t2 as int;
    assert(s.elapsed(t1) == b + x1 - l);
    assert(s.elapsed(t2) == b + x2 - l);
    assert((b + x1 - l) * r + (x2 - x1) * r == (b + x2 - l) * r) by (nonlinear_arith);
    assert(0 < (b + x1 - l) * r < (b + x2 - l) * r) by (nonlinear_arith)
        requires
            b >= 0,
            x1 > l,
            x2 > x1,
            r > 0,
    ;
    assert(0 < (x2 - x1) * r) by (nonlinear_arith)
        requires
            x2 > x1,
            r > 0,
    ;
    let (m1, a1) = m.withdraw(recipient, stream_id, t1)->Ok_0;
    let s1 = m1.streams[stream_id];
    assert(s1.status == StreamStatus::Active);
    assert(s1.elapsed(t2) == x2 - x1);
}

/// A completed or cancelled stream is closed for good: it can be neither
/// paused, resumed, cancelled nor withdrawn from, nothing is claimable, and in
/// a sound instance no later call (opening new streams included) rewrites it.
pub proof fn law_closed_stream_is_final(
    m: MicropaymentsModel,
    caller: Address,
    other: Address,
    token: Address,
    deposit: i128,
    rate_per_second: i128,
    duration_secs: u64,
    stream_id: u64,
    any_stream: u64,
    now: u64,
)
    requires
        m.streams.contains_key(stream_id),
        !m.streams[stream_id].is_open(),
    ensures
        m.pause_stream(caller, stream_id, now) is Err,
        m.resume_stream(caller, stream_id, now) is Err,
        m.cancel_stream(caller, stream_id, now) is Err,
        m.withdraw(caller, stream_id, now) is Err,
        m.claimable_amount(stream_id, now) == Ok::<i128, StreamError>(0),
        m.sound() ==> {
            &&& m.open_stream(caller, other, token, deposit, rate_per_second, duration_secs, now)
                matches Ok((post, _)) ==> post.streams[stream_id] == m.streams[stream_id]
            &&& m.withdraw(caller, any_stream, now) matches Ok((post, _)) ==> post.streams[stream_id]
                == m.streams[stream_id]
            &&& m.cancel_stream(caller, any_stream, now) matches Ok(post) ==> post.streams[stream_id]
                == m.streams[stream_id]
            &&& m.pause_stream(caller, any_stream, now) matches Ok(post) ==> post.streams[stream_id]
                == m.streams[stream_id]
            &&& m.resume_stream(caller, any_stream, now) matches Ok(post) ==> post.streams[stream_id]
                == m.streams[stream_id]
        },
{
}

/// The contract always holds enough of each token to pay what its open
/// streams still owe: every call raises its holding of each token by at least
/// as much as it raises what the streams owe in that token (opening pulls the
/// whole deposit in; withdrawing and cancelling pay out no more than they
/// take off what is owed). From a fresh instance, where both are zero, the
/// holding therefore never falls below what is owed.
pub proof fn law_holdings_cover_open_streams(
    m: MicropaymentsModel,
    caller: Address,
    other: Address,
    token: Address,
    deposit: i128,
    rate_per_second: i128,
    duration_secs: u64,
    stream_id: u64,
    now: u64,
    of: Seq<char>,
)
    requires
        m.sound(),
    ensures
        m.open_stream(caller, other, token, deposit, rate_per_second, duration_secs, now) matches Ok(
            (post, _),
        ) ==> owed(post, of) - owed(m, of) <= held_change(post.actions, of) - held_change(
            m.actions,
            of,
        ),
        m.withdraw(caller, stream_id, now) matches Ok((post, _)) ==> owed(post, of) - owed(m, of)
            <= held_change(post.actions, of) - held_change(m.actions, of),
        m.cancel_stream(caller, stream_id, now) matches Ok(post) ==> owed(post, of) - owed(m, of)
            <= held_change(post.actions, of) - held_change(m.actions, of),
        m.pause_stream(caller, stream_id, now) matches Ok(post) ==> owed(post, of) - owed(m, of)
            <= held_change(post.actions, of) - held_change(m.actions, of),
        m.resume_stream(caller, stream_id, now) matches Ok(post) ==> owed(post, of) - owed(m, of)
            <= held_change(post.actions, of) - held_change(m.actions, of),
{
    if let Ok((post, id)) = m.open_stream(
        caller,
        other,
        token,
        deposit,
        rate_per_second,
        duration_secs,
        now,
    ) {
        let n = m.stream_count as nat;
        lemma_owed_frame(m.streams, of, n, id, post.streams[id]);
        assert(post.streams == m.streams.insert(id, post.streams[id]));
        lemma_held_change_pair(
            m.actions,
            post.actions[post.actions.len() - 2],
            post.actions[post.actions.len() - 1],
            of,
        );
        assert(post.actions =~= m.actions.push(post.actions[post.actions.len() - 2]).push(
            post.actions[post.actions.len() - 1],
        ));
    }
    if m.streams.contains_key(stream_id) {
        let s = m.streams[stream_id];
        let n = m.stream_count as nat;
        law_claimable_within_remaining(s, now);
        if let Ok((post, amount)) = m.withdraw(caller, stream_id, now) {
            lemma_owed_update(m.streams, of, n, stream_id, post.streams[stream_id]);
            assert(post.streams == m.streams.insert(stream_id, post.streams[stream_id]));
            lemma_held_change_pair(
                m.actions,
                post.actions[post.actions.len() - 2],
                post.actions[post.actions.len() - 1],
                of,
            );
            assert(post.actions =~= m.actions.push(post.actions[post.actions.len() - 2]).push(
                post.actions[post.actions.len() - 1],
            ));
        }
        if let Ok(post) = m.cancel_stream(caller, stream_id, now) {
            lemma_owed_update(m.streams, of, n, stream_id, post.streams[stream_id]);
            assert(post.streams == m.streams.insert(stream_id, post.streams[stream_id]));
            lemma_cancel_held_change(m, caller, stream_id, now, of);
        }
        if let Ok(post) = m.pause_stream(caller, stream_id, now) {
            lemma_owed_update(m.streams, of, n, stream_id, post.streams[stream_id]);
            assert(post.streams == m.streams.insert(stream_id, post.streams[stream_id]));
        }
        if let Ok(post) = m.resume_stream(caller, stream_id, now) {
            lemma_owed_update(m.streams, of, n, stream_id, post.streams[stream_id]);
            assert(post.streams == m.streams.insert(stream_id, post.streams[stream_id]));
        }
    }
}

/// What an active stream offers, from its fields: with nothing banked and
/// `now` between its last settlement and its end, the rate times the seconds
/// since the last settlement, capped by what remains of the deposit.
pub proof fn law_active_claim_from_fields(s: PaymentStream, now: u64)
    requires
        s.status == StreamStatus::Active,
        s.banked_seconds == 0,
        s.last_settled <= now <= s.end_time,
    ensures
        s.accrued(now) == (if s.rate_per_second * (now - s.last_settled) > s.deposit - s.withdrawn {
            s.deposit - s.withdrawn
        } else {
            s.rate_per_second * (now - s.last_settled)
        }),
{
    assert(s.elapsed(now) == now - s.last_settled);
    assert(s.rate_per_second * (now - s.last_settled) == (now - s.last_settled) * s.rate_per_second)
        by (nonlinear_arith);
}

/// What a paused stream offers, from its fields: with nothing banked, paused
/// at `p` between its last settlement and its end, and asked at any later
/// time, the rate times the seconds it ran before the pause, capped by what
/// remains of the deposit (and never negative).
pub proof fn law_paused_claim_from_fields(s: PaymentStream, now: u64)
    requires
        s.status == StreamStatus::Paused,
        s.banked_seconds == 0,
        s.last_settled <= s.paused_at <= s.end_time,
        s.paused_at <= now,
        s.solvent(),
    ensures
        s.accrued(now) == (if s.rate_per_second * (s.paused_at - s.last_settled) > s.deposit
            - s.withdrawn {
            s.deposit - s.withdrawn
        } else {
            s.rate_per_second * (s.paused_at - s.last_settled)
        }),
{
    assert(s.elapsed(now) == s.paused_at - s.last_settled);
    let e = s.paused_at - s.last_settled;
    let r = s.rate_per_second as int;
    assert(r * e == e * r && r * e >= 0) by (nonlinear_arith)
        requires
            e >= 0,
            r > 0,
    ;
}

/// The claimable-amount query answers what a withdrawal at the same time
/// pays: never more than what remains of the deposit, nothing negative, and
/// whenever it answers a positive amount the recipient can withdraw exactly
/// that amount.
pub proof fn law_claimable_amount_matches_withdrawal(
    m: MicropaymentsModel,
    recipient: Address,
    stream_id: u64,
    now: u64,
)
    requires
        m.streams.contains_key(stream_id),
        m.streams[stream_id].solvent(),
    ensures
        m.claimable_amount(stream_id, now) matches Ok(a) ==> 0 <= a <= m.streams[stream_id].deposit
            - m.streams[stream_id].withdrawn,
        m.withdraw(recipient, stream_id, now) matches Ok((_, x)) ==> m.claimable_amount(
            stream_id,
            now,
        ) == Ok::<i128, StreamError>(x),
        m.claimable_amount(stream_id, now) matches Ok(a) ==> (a > 0
            && m.streams[stream_id].recipient@ == recipient@ ==> m.withdraw(
            recipient,
            stream_id,
            now,
        ) is Ok && m.withdraw(recipient, stream_id, now)->Ok_0.1 == a),
        m.withdraw(recipient, stream_id, now) matches Ok((post, x)) ==> {
            &&& post.streams[stream_id].withdrawn == m.streams[stream_id].withdrawn + x
            &&& post.actions.len() == m.actions.len() + 2
            &&& post.actions[m.actions.len() as int] == StreamAction::Pay(
                Transfer {
                    token: m.streams[stream_id].token,
                    from: Party::ThisContract,
                    to: Party::Account(recipient),
                    amount: x,
                },
            )
        },
{
    law_claimable_within_remaining(m.streams[stream_id], now);
}

/// The sender of an active stream can always pause it; pausing changes
/// nothing but the stream's status and recorded pause time, moves no tokens
/// and leaves every other stream as it was.
pub proof fn law_sender_can_pause(m: MicropaymentsModel, caller: Address, stream_id: u64, now: u64, other: u64)
    requires
        m.streams.contains_key(stream_id),
        m.streams[stream_id].sender@ == caller@,
        m.streams[stream_id].status == StreamStatus::Active,
    ensures
        m.pause_stream(caller, stream_id, now) is Ok,
        ({
            let post = m.pause_stream(caller, stream_id, now)->Ok_0;
            &&& post.streams[stream_id] == (PaymentStream {
                status: StreamStatus::Paused,
                paused_at: now,
                ..m.streams[stream_id]
            })
            &&& post.actions == m.actions
            &&& post.stream_count == m.stream_count
            &&& other != stream_id ==> post.stream(other) == m.stream(other)
        }),
{
}

/// The sender of a paused stream can always resume it; resuming moves no
/// tokens and leaves every other stream as it was.
pub proof fn law_sender_can_resume(m: MicropaymentsModel, caller: Address, stream_id: u64, now: u64, other: u64)
    requires
        m.streams.contains_key(stream_id),
        m.streams[stream_id].sender@ == caller@,
        m.streams[stream_id].status == StreamStatus::Paused,
    ensures
        m.resume_stream(caller, stream_id, now) is Ok,
        ({
            let post = m.resume_stream(caller, stream_id, now)->Ok_0;
            &&& post.streams[stream_id].status == StreamStatus::Active
            &&& post.streams[stream_id].last_settled == now
            &&& post.streams[stream_id].withdrawn == m.streams[stream_id].withdrawn
            &&& post.streams[stream_id].deposit == m.streams[stream_id].deposit
            &&& post.actions == m.actions
            &&& other != stream_id ==> post.stream(other) == m.stream(other)
        }),
{
}

/// Opening succeeds whenever the deposit and rate are positive and neither
/// the stream counter nor the end time overflows; it moves the deposit from
/// the sender into the contract and leaves every existing stream as it was.
pub proof fn law_open_stream_succeeds(
    m: MicropaymentsModel,
    sender: Address,
    recipient: Address,
    token: Address,
    deposit: i128,
    rate_per_second: i128,
    duration_secs: u64,
    now: u64,
    other: u64,
)
    requires
        deposit > 0,
        rate_per_second > 0,
        m.stream_count < u64::MAX,
        now + duration_secs <= u64::MAX,
        m.streams.contains_key(other),
        m.sound(),
    ensures
        m.open_stream(sender, recipient, token, deposit, rate_per_second, duration_secs, now) is Ok,
        ({
            let (post, _) = m.open_stream(
                sender,
                recipient,
                token,
                deposit,
                rate_per_second,
                duration_secs,
                now,
            )->Ok_0;
            &&& post.streams[other] == m.streams[other]
            &&& post.actions[m.actions.len() as int] == StreamAction::Pay(
                Transfer {
                    token,
                    from: Party::Account(sender),
                    to: Party::ThisContract,
                    amount: deposit,
                },
            )
        }),
{
}

/// Withdrawing and cancelling change only the stream they name.
pub proof fn law_stream_calls_touch_one_stream(
    m: MicropaymentsModel,
    caller: Address,
    stream_id: u64,
    other: u64,
    now: u64,
)
    requires
        other != stream_id,
    ensures
        m.withdraw(caller, stream_id, now) matches Ok((post, _)) ==> post.stream(other) == m.stream(
            other,
        ) && post.stream_count == m.stream_count,
        m.cancel_stream(caller, stream_id, now) matches Ok(post) ==> post.stream(other) == m.stream(
            other,
        ) && post.stream_count == m.stream_count,
{
}

/// What a sequence of actions pays out of the contract, in `token`, to the
/// account named `to`.
pub open spec fn paid_to(actions: Seq<StreamAction>, token: Seq<char>, to: Seq<char>) -> int
    decreases actions.len(),
{
    if actions.len() == 0 {
        0
    } else {
        paid_to(actions.drop_last(), token, to) + match actions.last() {
            StreamAction::Pay(t) => if t.token@ == token && t.from is ThisContract && (t.to matches Party::Account(a) && a@ == to) {
                t.amount as int
            } else {
                0
            },
            StreamAction::Emit(_) => 0,
        }
    }
}

proof fn lemma_paid_to_append(a: Seq<StreamAction>, b: Seq<StreamAction>, token: Seq<char>, to: Seq<char>)
    ensures
        paid_to(a + b, token, to) == paid_to(a, token, to) + paid_to(b, token, to),
    decreases b.len(),
{
    if b.len() > 0 {
        lemma_paid_to_append(a, b.drop_last(), token, to);
        assert((a + b).drop_last() =~= a + b.drop_last());
        assert((a + b).last() == b.last());
    } else {
        assert(a + b =~= a);
    }
}

proof fn lemma_paid_to_single(x: StreamAction, token: Seq<char>, to: Seq<char>)
    ensures
        paid_to(seq![x], token, to) == (match x {
            StreamAction::Pay(t) => if t.token@ == token && t.from is ThisContract && (t.to matches Party::Account(a) && a@ == to) {
                t.amount as int
            } else {
                0
            },
            StreamAction::Emit(_) => 0,
        }),
{
    assert(seq![x].drop_last() =~= Seq::<StreamAction>::empty());
    assert(seq![x].last() == x);
    assert(paid_to(Seq::<StreamAction>::empty(), token, to) == 0);
}

/// Cancelling splits what the stream still holds between the two parties:
/// the recipient is paid exactly what it earned (nothing it did not earn)
/// and the sender gets back exactly the unearned rest.
pub proof fn law_cancel_splits_between_parties(
    m: MicropaymentsModel,
    sender: Address,
    stream_id: u64,
    now: u64,
)
    requires
        m.cancel_stream(sender, stream_id, now) is Ok,
        m.streams[stream_id].solvent(),
        m.streams[stream_id].recipient@ != sender@,
    ensures
        ({
            let post = m.cancel_stream(sender, stream_id, now)->Ok_0;
            let s = m.streams[stream_id];
            &&& paid_to(post.actions, s.token@, s.recipient@) == paid_to(m.actions, s.token@, s.recipient@)
                + s.accrued(now)
            &&& paid_to(post.actions, s.token@, sender@) == paid_to(m.actions, s.token@, sender@)
                + (s.deposit - s.withdrawn - s.accrued(now))
            &&& post.stream_count == m.stream_count
        }),
{
    let s = m.streams[stream_id];
    law_claimable_within_remaining(s, now);
    let post = m.cancel_stream(sender, stream_id, now)->Ok_0;
    let earned = s.accrued(now) as i128;
    let refund = (s.remaining() - earned) as i128;
    let to_recipient = if earned > 0 {
        seq![
            StreamAction::Pay(
                Transfer {
                    token: s.token,
                    from: Party::ThisContract,
                    to: Party::Account(s.recipient),
                    amount: earned,
                },
            ),
        ]
    } else {
        Seq::<StreamAction>::empty()
    };
    let to_sender = if refund > 0 {
        seq![
            StreamAction::Pay(
                Transfer {
                    token: s.token,
                    from: Party::ThisContract,
                    to: Party::Account(sender),
                    amount: refund,
                },
            ),
        ]
    } else {
        Seq::<StreamAction>::empty()
    };
    let last = seq![StreamAction::Emit(StreamEvent::Cancelled { sender, stream_id })];
    assert(post.actions == m.actions + to_recipient + to_sender + last);
    let tk = s.token@;
    let rs = seq![s.recipient@, sender@];
    assert forall|i: int| 0 <= i < 2 implies paid_to(post.actions, tk, #[trigger] rs[i]) == paid_to(
        m.actions,
        tk,
        rs[i],
    ) + paid_to(to_recipient, tk, rs[i]) + paid_to(to_sender, tk, rs[i]) by {
        let who = rs[i];
        lemma_paid_to_append(m.actions + to_recipient + to_sender, last, tk, who);
        lemma_paid_to_append(m.actions + to_recipient, to_sender, tk, who);
        lemma_paid_to_append(m.actions, to_recipient, tk, who);
        lemma_paid_to_single(last[0], tk, who);
        assert(last =~= seq![last[0]]);
    }
    assert(rs[0] == s.recipient@);
    assert(rs[1] == sender@);
    if earned > 0 {
        lemma_paid_to_single(to_recipient[0], tk, s.recipient@);
        lemma_paid_to_single(to_recipient[0], tk, sender@);
        assert(to_recipient =~= seq![to_recipient[0]]);
    }
    if refund > 0 {
        lemma_paid_to_single(to_sender[0], tk, s.recipient@);
        lemma_paid_to_single(to_sender[0], tk, sender@);
        assert(to_sender =~= seq![to_sender[0]]);
    }
}

/// An opened stream holds exactly what was asked for: the given parties,
/// token, deposit and rate, starting and settled at the opening time, ending
/// `duration_secs` later, active, with nothing withdrawn or banked.
pub proof fn law_opened_stream_fields(
    m: MicropaymentsModel,
    sender: Address,
    recipient: Address,
    token: Address,
    deposit: i128,
    rate_per_second: i128,
    duration_secs: u64,
    now: u64,
)
    requires
        m.open_stream(sender, recipient, token, deposit, rate_per_second, duration_secs, now) is Ok,
    ensures
        ({
            let (post, id) = m.open_stream(
                sender,
                recipient,
                token,
                deposit,
                rate_per_second,
                duration_secs,
                now,
            )->Ok_0;
            let s = post.streams[id];
            &&& post.streams.contains_key(id)
            &&& s.id == id && s.sender == sender && s.recipient == recipient && s.token == token
            &&& s.deposit == deposit && s.rate_per_second == rate_per_second
            &&& s.start_time == now && s.end_time == now + duration_secs
            &&& s.last_settled == now && s.withdrawn == 0 && s.banked_seconds == 0
            &&& s.status == StreamStatus::Active
        }),
{
}

/// The claimable amount of a stream that does not exist is zero, and asking
/// changes nothing.
pub proof fn law_unknown_stream_claims_nothing(m: MicropaymentsModel, stream_id: u64, now: u64)
    requires
        !m.streams.contains_key(stream_id),
    ensures
        m.claimable_amount(stream_id, now) == Ok::<i128, StreamError>(0),
        m.stream(stream_id) is None,
{
}

} // verus!
