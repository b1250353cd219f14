//! Micropayments streaming contract for Intelligence Rail.
//!
//! Enables agents to open payment streams to pay for intelligence asset usage
//! continuously (per-second or per-call billing), with deposit/withdrawal and
//! automatic settlement.
use std::collections::HashMap;
use vstd::prelude::*;

use crate::ledger::{Address, Party, Transfer};

verus! {

broadcast use vstd::std_specs::hash::group_hash_axioms;

/// State of a payment stream
#[derive(Clone, Copy, Debug, PartialEq, Eq, Structural)]
pub enum StreamStatus {
    Active,
    Paused,
    Completed,
    Cancelled,
}

/// A payment stream from a sender to a recipient
#[derive(Clone, Debug)]
pub struct PaymentStream {
    pub id: u64,
    pub sender: Address,
    pub recipient: Address,
    pub token: Address,
    /// Total deposited into the stream
    pub deposit: i128,
    /// Rate in stroops per ledger-second
    pub rate_per_second: i128,
    pub start_time: u64,
    pub end_time: u64,
    /// Last settlement timestamp
    pub last_settled: u64,
    /// Amount already withdrawn by recipient
    pub withdrawn: i128,
    /// Seconds streamed before the last resume and not yet paid for
    pub banked_seconds: u64,
    /// When the stream was last paused (zero while it has not been paused
    /// since its last resume)
    pub paused_at: u64,
    pub status: StreamStatus,
}

/// Why the micropayments contract refuses a call.
#[derive(Clone, Copy, Debug, PartialEq, Eq, Structural)]
pub enum StreamError {
    /// No stream is kept under the given id.
    StreamNotFound,
    /// "deposit must be positive"
    NonPositiveDeposit,
    /// "rate must be positive"
    NonPositiveRate,
    /// "not the stream recipient"
    NotStreamRecipient,
    /// "not the stream sender"
    NotStreamSender,
    /// "nothing to withdraw"
    NothingToWithdraw,
    /// "stream already closed"
    StreamClosed,
    /// "stream not active"
    StreamNotActive,
    /// "stream not paused"
    StreamNotPaused,
    /// An amount, a time or the stream counter leaves its integer range.
    ArithmeticOverflow,
}

/// Events the micropayments contract publishes.
#[derive(Clone, Debug)]
pub enum StreamEvent {
    /// Topic `OPENED` with the sender; data: the stream id and the deposit.
    Opened { sender: Address, stream_id: u64, deposit: i128 },
    /// Topic `WITHDRAWN` with the recipient; data: the stream id and the amount.
    Withdrawn { recipient: Address, stream_id: u64, amount: i128 },
    /// Topic `CANCELLED` with the sender; data: the stream id.
    Cancelled { sender: Address, stream_id: u64 },
}

/// Work that a micropayments call leaves for the host, in the order it is due.
#[derive(Clone, Debug)]
pub enum StreamAction {
    Pay(Transfer),
    Emit(StreamEvent),
}

/// Whether `x` is a value of `i128`.
pub open spec fn fits_i128(x: int) -> bool {
    i128::MIN <= x <= i128::MAX
}

impl PaymentStream {
    /// Whether the stream is still running or paused (not yet closed).
    pub open spec fn is_open(self) -> bool {
        self.status == StreamStatus::Active || self.status == StreamStatus::Paused
    }

    /// The moment up to which time counts at `now`: never past `end_time`,
    /// and for a paused stream never past the pause.
    pub open spec fn counted_until(self, now: u64) -> u64 {
        let until = if now < self.end_time {
            now
        } else {
            self.end_time
        };
        if self.status == StreamStatus::Paused && self.paused_at < until {
            self.paused_at
        } else {
            until
        }
    }

    /// Seconds streamed since the last settlement or resume, as counted at `now`.
    pub open spec fn fresh_seconds(self, now: u64) -> nat {
        if self.is_open() && self.counted_until(now) >= self.last_settled {
            (self.counted_until(now) - self.last_settled) as nat
        } else {
            0
        }
    }

    /// All seconds the recipient has not been paid for yet, as counted at `now`.
    pub open spec fn elapsed(self, now: u64) -> int {
        if self.is_open() {
            self.banked_seconds + self.fresh_seconds(now)
        } else {
            0
        }
    }

    /// Everything the recipient has earned and not yet been paid, uncapped.
    pub open spec fn earned(self, now: u64) -> int {
        self.elapsed(now) * self.rate_per_second
    }

    /// The part of the deposit not yet withdrawn.
    pub open spec fn remaining(self) -> int {
        self.deposit - self.withdrawn
    }

    /// Whether the claimable amount can be computed in `i128`.
    pub open spec fn accrual_fits(self, now: u64) -> bool {
        self.is_open() ==> fits_i128(self.earned(now)) && fits_i128(self.remaining())
    }

    /// How much the recipient can withdraw at `now`: what it earned, capped
    /// by what remains of the deposit; a paused stream offers no negative
    /// amount, and a closed one nothing.
    pub open spec fn accrued(self, now: u64) -> int {
        if !self.is_open() {
            0
        } else {
            let capped = if self.earned(now) > self.remaining() {
                self.remaining()
            } else {
                self.earned(now)
            };
            if self.status == StreamStatus::Paused && capped < 0 {
                0
            } else {
                capped
            }
        }
    }

    /// The stream holds at least what it still owes and pays at a positive rate.
    pub open spec fn solvent(self) -> bool {
        &&& 0 <= self.withdrawn <= self.deposit
        &&& self.rate_per_second > 0
    }

    /// What every stream opened by `open_stream` keeps: a positive deposit,
    /// solvency, a start no later than its end, and no pause recorded while
    /// it is active.
    pub open spec fn sound(self) -> bool {
        &&& self.deposit > 0
        &&& self.solvent()
        &&& self.start_time <= self.end_time
        &&& self.status == StreamStatus::Active ==> self.paused_at == 0
    }

    /// The banked seconds after resuming at `now`: those banked before plus
    /// the ones streamed up to the pause, saturating at `u64::MAX`.
    pub open spec fn banked_after_resume(self, now: u64) -> u64 {
        if self.banked_seconds + self.fresh_seconds(now) > u64::MAX {
            u64::MAX
        } else {
            (self.banked_seconds + self.fresh_seconds(now)) as u64
        }
    }

    /// `counted_until`, computed.
    fn counted_until_exec(&self, now: u64) -> (until: u64)
        ensures
            until == self.counted_until(now),
    {
        let until: u64 = if now < self.end_time {
            now
        } else {
            self.end_time
        };
        if self.status == StreamStatus::Paused && self.paused_at < until {
            self.paused_at
        } else {
            until
        }
    }

    /// `fresh_seconds`, computed.
    fn fresh_seconds_exec(&self, now: u64) -> (secs: u64)
        ensures
            secs == self.fresh_seconds(now),
    {
        if self.status != StreamStatus::Active && self.status != StreamStatus::Paused {
            return 0;
        }
        self.counted_until_exec(now).saturating_sub(self.last_settled)
    }

    /// `elapsed`, computed (it always fits in `i128`).
    fn elapsed_exec(&self, now: u64) -> (secs: i128)
        ensures
            secs == self.elapsed(now),
    {
        if self.status != StreamStatus::Active && self.status != StreamStatus::Paused {
            return 0;
        }
        self.banked_seconds as i128 + self.fresh_seconds_exec(now) as i128
    }

    /// Compute how much the recipient can withdraw right now.
    pub fn claimable(&self, now: u64) -> (amount: i128)
        requires
            self.accrual_fits(now),
        ensures
            amount == self.accrued(now),
    {
        if self.status != StreamStatus::Active && self.status != StreamStatus::Paused {
            return 0;
        }
        let earned: i128 = self.elapsed_exec(now) * self.rate_per_second;
        let remaining: i128 = self.deposit - self.withdrawn;
        let capped: i128 = if earned > remaining {
            remaining
        } else {
            earned
        };
        if self.status == StreamStatus::Paused && capped < 0 {
            0
        } else {
            capped
        }
    }

    /// `claimable`, or `None` where its arithmetic would leave `i128`.
    pub fn checked_claimable(&self, now: u64) -> (amount: Option<i128>)
        ensures
            amount == (if self.accrual_fits(now) {
                Some(self.accrued(now) as i128)
            } else {
                None
            }),
    {
        if self.status != StreamStatus::Active && self.status != StreamStatus::Paused {
            return Some(0);
        }
        if self.elapsed_exec(now).checked_mul(self.rate_per_second).is_none()
            || self.deposit.checked_sub(self.withdrawn).is_none() {
            return None;
        }
        Some(self.claimable(now))
    }

    /// An exact copy of this record.
    pub fn duplicate(&self) -> (r: PaymentStream)
        ensures
            r == *self,
    {
        PaymentStream {
            id: self.id,
            sender: self.sender.duplicate(),
            recipient: self.recipient.duplicate(),
            token: self.token.duplicate(),
            deposit: self.deposit,
            rate_per_second: self.rate_per_second,
            start_time: self.start_time,
            end_time: self.end_time,
            last_settled: self.last_settled,
            withdrawn: self.withdrawn,
            banked_seconds: self.banked_seconds,
            paused_at: self.paused_at,
            status: self.status,
        }
    }
}

/// The abstract state of a micropayments instance.
#[verifier::ext_equal]
pub struct MicropaymentsModel {
    /// The last stream id handed out.
    pub stream_count: u64,
    /// Streams by id.
    pub streams: Map<u64, PaymentStream>,
    /// Transfers and events not yet handed to the host.
    pub actions: Seq<StreamAction>,
}

/// The stream record that `open_stream` creates.
pub open spec fn new_stream(
    id: u64,
    sender: Address,
    recipient: Address,
    token: Address,
    deposit: i128,
    rate_per_second: i128,
    now: u64,
    end_time: u64,
) -> PaymentStream {
    PaymentStream {
        id,
        sender,
        recipient,
        token,
        deposit,
        rate_per_second,
        start_time: now,
        end_time,
        last_settled: now,
        withdrawn: 0,
        banked_seconds: 0,
        paused_at: 0,
        status: StreamStatus::Active,
    }
}

impl MicropaymentsModel {
    /// Every stream is kept under its own id.
    pub open spec fn wf(self) -> bool {
        forall|id: u64| #[trigger] self.streams.contains_key(id) ==> self.streams[id].id == id
    }

    /// The state every sequence of calls from a fresh instance keeps: the
    /// streams are exactly those numbered 1 to `stream_count`, each kept
    /// under its own id and sound.
    pub open spec fn sound(self) -> bool {
        &&& forall|id: u64| #[trigger]
            self.streams.contains_key(id) <==> 1 <= id <= self.stream_count
        &&& forall|id: u64| #[trigger]
            self.streams.contains_key(id) ==> self.streams[id].id == id && self.streams[id].sound()
    }

    /// The stream kept under `stream_id`, if any.
    pub open spec fn stream(self, stream_id: u64) -> Option<PaymentStream> {
        if self.streams.contains_key(stream_id) {
            Some(self.streams[stream_id])
        } else {
            None
        }
    }

    /// The outcome of `open_stream`: the next state and the new stream id.
    pub open spec fn open_stream(
        self,
        sender: Address,
        recipient: Address,
        token: Address,
        deposit: i128,
        rate_per_second: i128,
        duration_secs: u64,
        now: u64,
    ) -> Result<(MicropaymentsModel, u64), StreamError> {
        if deposit <= 0 {
            Err(StreamError::NonPositiveDeposit)
        } else if rate_per_second <= 0 {
            Err(StreamError::NonPositiveRate)
        } else if self.stream_count == u64::MAX || now + duration_secs > u64::MAX {
            Err(StreamError::ArithmeticOverflow)
        } else {
            let id = (self.stream_count + 1) as u64;
            let stream = new_stream(
                id,
                sender,
                recipient,
                token,
                deposit,
                rate_per_second,
                now,
                (now + duration_secs) as u64,
            );
            let pull = Transfer {
                token,
                from: Party::Account(sender),
                to: Party::ThisContract,
                amount: deposit,
            };
            Ok(
                (
                    MicropaymentsModel {
                        stream_count: id,
                        streams: self.streams.insert(id, stream),
                        actions: self.actions.push(StreamAction::Pay(pull)).push(
                            StreamAction::Emit(
                                StreamEvent::Opened { sender, stream_id: id, deposit },
                            ),
                        ),
                    },
                    id,
                ),
            )
        }
    }

    /// Why `caller` may not act as the sender of stream `stream_id`, if it may not.
    pub open spec fn sender_refusal(self, caller: Address, stream_id: u64) -> Option<StreamError> {
        if !self.streams.contains_key(stream_id) {
            Some(StreamError::StreamNotFound)
        } else if self.streams[stream_id].sender@ != caller@ {
            Some(StreamError::NotStreamSender)
        } else {
            None
        }
    }

    /// The outcome of `withdraw`: the next state and the amount paid out.
    pub open spec fn withdraw(self, recipient: Address, stream_id: u64, now: u64) -> Result<
        (MicropaymentsModel, i128),
        StreamError,
    > {
        if !self.streams.contains_key(stream_id) {
            Err(StreamError::StreamNotFound)
        } else if self.streams[stream_id].recipient@ != recipient@ {
            Err(StreamError::NotStreamRecipient)
        } else if !self.streams[stream_id].accrual_fits(now) {
            Err(StreamError::ArithmeticOverflow)
        } else if self.streams[stream_id].accrued(now) <= 0 {
            Err(StreamError::NothingToWithdraw)
        } else {
            let s = self.streams[stream_id];
            let amount = s.accrued(now) as i128;
            let withdrawn = (s.withdrawn + amount) as i128;
            let status = if withdrawn >= s.deposit || now >= s.end_time {
                StreamStatus::Completed
            } else {
                s.status
            };
            let payout = Transfer {
                token: s.token,
                from: Party::ThisContract,
                to: Party::Account(recipient),
                amount,
            };
            Ok(
                (
                    MicropaymentsModel {
                        streams: self.streams.insert(
                            stream_id,
                            PaymentStream {
                                withdrawn,
                                last_settled: now,
                                banked_seconds: 0,
                                status,
                                ..s
                            },
                        ),
                        actions: self.actions.push(StreamAction::Pay(payout)).push(
                            StreamAction::Emit(
                                StreamEvent::Withdrawn { recipient, stream_id, amount },
                            ),
                        ),
                        ..self
                    },
                    amount,
                ),
            )
        }
    }

    /// The outcome of `cancel_stream`.
    pub open spec fn cancel_stream(self, sender: Address, stream_id: u64, now: u64) -> Result<
        MicropaymentsModel,
        StreamError,
    > {
        match self.sender_refusal(sender, stream_id) {
            Some(e) => Err(e),
            None => {
                let s = self.streams[stream_id];
                if !s.is_open() {
                    Err(StreamError::StreamClosed)
                } else if !s.accrual_fits(now) || !fits_i128(s.remaining()) || !fits_i128(
                    s.remaining() - s.accrued(now),
                ) {
                    Err(StreamError::ArithmeticOverflow)
                } else {
                    let earned = s.accrued(now) as i128;
                    let refund = (s.remaining() - earned) as i128;
                    let to_recipient = if earned > 0 {
                        seq![
                            StreamAction::Pay(
                                Transfer {
                                    token: s.token,
                                    from: Party::ThisContract,
                                    to: Party::Account(s.recipient),
                                    amount: earned,
                                },
                            ),
                        ]
                    } else {
                        Seq::empty()
                    };
                    let to_sender = if refund > 0 {
                        seq![
                            StreamAction::Pay(
                                Transfer {
                                    token: s.token,
                                    from: Party::ThisContract,
                                    to: Party::Account(sender),
                                    amount: refund,
                                },
                            ),
                        ]
                    } else {
                        Seq::empty()
                    };
                    let withdrawn = if earned > 0 {
                        (s.withdrawn + earned) as i128
                    } else {
                        s.withdrawn
                    };
                    Ok(
                        MicropaymentsModel {
                            streams: self.streams.insert(
                                stream_id,
                                PaymentStream {
                                    withdrawn,
                                    status: StreamStatus::Cancelled,
                                    ..s
                                },
                            ),
                            actions: self.actions + to_recipient + to_sender + seq![
                                StreamAction::Emit(StreamEvent::Cancelled { sender, stream_id }),
                            ],
                            ..self
                        },
                    )
                }
            },
        }
    }

    /// The outcome of `pause_stream`: the stream stops accruing at `now`,
    /// which is recorded; what it earned so far stays owed to the recipient.
    pub open spec fn pause_stream(self, sender: Address, stream_id: u64, now: u64) -> Result<
        MicropaymentsModel,
        StreamError,
    > {
        match self.sender_refusal(sender, stream_id) {
            Some(e) => Err(e),
            None => if self.streams[stream_id].status != StreamStatus::Active {
                Err(StreamError::StreamNotActive)
            } else {
                Ok(
                    MicropaymentsModel {
                        streams: self.streams.insert(
                            stream_id,
                            PaymentStream {
                                status: StreamStatus::Paused,
                                paused_at: now,
                                ..self.streams[stream_id]
                            },
                        ),
                        ..self
                    },
                )
            },
        }
    }

    /// The outcome of `resume_stream`: the seconds streamed before the pause
    /// are banked (saturating at `u64::MAX`) and streaming restarts at `now`.
    pub open spec fn resume_stream(self, sender: Address, stream_id: u64, now: u64) -> Result<
        MicropaymentsModel,
        StreamError,
    > {
        match self.sender_refusal(sender, stream_id) {
            Some(e) => Err(e),
            None => if self.streams[stream_id].status != StreamStatus::Paused {
                Err(StreamError::StreamNotPaused)
            } else {
                Ok(
                    MicropaymentsModel {
                        streams: self.streams.insert(
                            stream_id,
                            PaymentStream {
                                status: StreamStatus::Active,
                                banked_seconds: self.streams[stream_id].banked_after_resume(now),
                                last_settled: now,
                                paused_at: 0,
                                ..self.streams[stream_id]
                            },
                        ),
                        ..self
                    },
                )
            },
        }
    }

    /// What `claimable_amount` answers: nothing for an unknown stream, the
    /// stream's accrued amount otherwise.
    pub open spec fn claimable_amount(self, stream_id: u64, now: u64) -> Result<i128, StreamError> {
        if !self.streams.contains_key(stream_id) {
            Ok(0)
        } else if !self.streams[stream_id].accrual_fits(now) {
            Err(StreamError::ArithmeticOverflow)
        } else {
            Ok(self.streams[stream_id].accrued(now) as i128)
        }
    }
}


/// The streams that a sequence of records leaves, each under its own id: a
/// later record with the same id replaces an earlier one.
pub open spec fn streams_recorded(records: Seq<PaymentStream>) -> Map<u64, PaymentStream>
    decreases records.len(),
{
    if records.len() == 0 {
        Map::empty()
    } else {
        streams_recorded(records.drop_last()).insert(records.last().id, records.last())
    }
}

proof fn lemma_records_keyed(records: Seq<PaymentStream>)
    ensures
        forall|id: u64| #[trigger]
            streams_recorded(records).contains_key(id) ==> streams_recorded(records)[id].id == id,
    decreases records.len(),
{
    if records.len() > 0 {
        lemma_records_keyed(records.drop_last());
    }
}

/// A micropayments instance: its stored streams and the work queued for the host.
pub struct MicropaymentsContract {
    stream_count: u64,
    streams: HashMap<u64, PaymentStream>,
    actions: Vec<StreamAction>,
}

impl View for MicropaymentsContract {
    type V = MicropaymentsModel;

    closed spec fn view(&self) -> MicropaymentsModel {
        MicropaymentsModel {
            stream_count: self.stream_count,
            streams: self.streams@,
            actions: self.actions@,
        }
    }
}

impl MicropaymentsContract {
    /// A micropayments instance that nothing has been done to yet.
    pub fn new() -> (m: MicropaymentsContract)
        ensures
            m@ == (MicropaymentsModel {
                stream_count: 0,
                streams: Map::empty(),
                actions: Seq::empty(),
            }),
            m@.wf(),
            m@.sound(),
    {
        MicropaymentsContract { stream_count: 0, streams: HashMap::new(), actions: Vec::new() }
    }

    /// Rebuilds an instance from its stored parts: the stream counter and the
    /// stream records (later records replace earlier ones with the same id).
    /// Nothing is queued.
    pub fn restore(stream_count: u64, records: Vec<PaymentStream>) -> (m: MicropaymentsContract)
        ensures
            m@ == (MicropaymentsModel {
                stream_count,
                streams: streams_recorded(records@),
                actions: Seq::empty(),
            }),
            m@.wf(),
    {
        let mut streams: HashMap<u64, PaymentStream> = HashMap::new();
        let mut i: usize = 0;
        while i < records.len()
            invariant
                i <= records.len(),
                streams@ == streams_recorded(records@.subrange(0, i as int)),
            decreases records.len() - i,
        {
            let record = records[i].duplicate();
            streams.insert(record.id, record);
            proof {
                assert(records@.subrange(0, i + 1).drop_last() =~= records@.subrange(0, i as int));
            }
            i = i + 1;
        }
        assert(records@.subrange(0, records.len() as int) =~= records@);
        proof {
            lemma_records_keyed(records@);
        }
        MicropaymentsContract { stream_count, streams, actions: Vec::new() }
    }

    /// Open a new payment stream; the deposit is pulled from the sender.
    /// Returns the new stream's id.
    pub fn open_stream(
        &mut self,
        sender: Address,
        recipient: Address,
        token: Address,
        deposit: i128,
        rate_per_second: i128,
        duration_secs: u64,
        now: u64,
    ) -> (r: Result<u64, StreamError>)
        requires
            old(self)@.wf(),
        ensures
            final(self)@.wf(),
            match r {
                Ok(id) => old(self)@.open_stream(
                    sender,
                    recipient,
                    token,
                    deposit,
                    rate_per_second,
                    duration_secs,
                    now,
                ) == Ok::<(MicropaymentsModel, u64), StreamError>((final(self)@, id)),
                Err(e) => {
                    &&& old(self)@.open_stream(
                        sender,
                        recipient,
                        token,
                        deposit,
                        rate_per_second,
                        duration_secs,
                        now,
                    ) == Err::<(MicropaymentsModel, u64), StreamError>(e)
                    &&& final(self)@ == old(self)@
                },
            },
    {
        if deposit <= 0 {
            return Err(StreamError::NonPositiveDeposit);
        }
        if rate_per_second <= 0 {
            return Err(StreamError::NonPositiveRate);
        }
        let stream_id: u64 = match self.stream_count.checked_add(1) {
            Some(id) => id,
            None => return Err(StreamError::ArithmeticOverflow),
        };
        let end_time: u64 = match now.checked_add(duration_secs) {
            Some(t) => t,
            None => return Err(StreamError::ArithmeticOverflow),
        };
        let pull = Transfer {
            token: token.duplicate(),
            from: Party::Account(sender.duplicate()),
            to: Party::ThisContract,
            amount: deposit,
        };
        let event_sender = sender.duplicate();
        let stream = PaymentStream {
            id: stream_id,
            sender,
            recipient,
            token,
            deposit,
            rate_per_second,
            start_time: now,
            end_time,
            last_settled: now,
            withdrawn: 0,
            banked_seconds: 0,
            paused_at: 0,
            status: StreamStatus::Active,
        };
        self.streams.insert(stream_id, stream);
        self.stream_count = stream_id;
        self.actions.push(StreamAction::Pay(pull));
        self.actions.push(
            StreamAction::Emit(StreamEvent::Opened { sender: event_sender, stream_id, deposit }),
        );
        Ok(stream_id)
    }

    /// Recipient withdraws accrued funds. Returns the amount paid out.
    pub fn withdraw(&mut self, recipient: Address, stream_id: u64, now: u64) -> (r: Result<
        i128,
        StreamError,
    >)
        requires
            old(self)@.wf(),
        ensures
            final(self)@.wf(),
            match r {
                Ok(amount) => old(self)@.withdraw(recipient, stream_id, now) == Ok::<
                    (MicropaymentsModel, i128),
                    StreamError,
                >((final(self)@, amount)),
                Err(e) => {
                    &&& old(self)@.withdraw(recipient, stream_id, now) == Err::<
                        (MicropaymentsModel, i128),
                        StreamError,
                    >(e)
                    &&& final(self)@ == old(self)@
                },
            },
    {
        let mut stream = match self.streams.get(&stream_id) {
            Some(s) => s.duplicate(),
            None => return Err(StreamError::StreamNotFound),
        };
        if !stream.recipient.matches(&recipient) {
            return Err(StreamError::NotStreamRecipient);
        }
        let amount: i128 = match stream.checked_claimable(now) {
            Some(a) => a,
            None => return Err(StreamError::ArithmeticOverflow),
        };
        if amount <= 0 {
            return Err(StreamError::NothingToWithdraw);
        }
        let payout = Transfer {
            token: stream.token.duplicate(),
            from: Party::ThisContract,
            to: Party::Account(recipient.duplicate()),
            amount,
        };
        stream.withdrawn = stream.withdrawn + amount;
        stream.last_settled = now;
        stream.banked_seconds = 0;
        if stream.withdrawn >= stream.deposit || now >= stream.end_time {
            stream.status = StreamStatus::Completed;
        }
        self.streams.insert(stream_id, stream);
        self.actions.push(StreamAction::Pay(payout));
        self.actions.push(
            StreamAction::Emit(StreamEvent::Withdrawn { recipient, stream_id, amount }),
        );
        Ok(amount)
    }

    /// Sender cancels a stream; the recipient is paid what it earned and
    /// unearned funds are refunded to the sender.
    pub fn cancel_stream(&mut self, sender: Address, stream_id: u64, now: u64) -> (r: Result<
        (),
        StreamError,
    >)
        requires
            old(self)@.wf(),
        ensures
            final(self)@.wf(),
            match r {
                Ok(()) => old(self)@.cancel_stream(sender, stream_id, now) == Ok::<
                    MicropaymentsModel,
                    StreamError,
                >(final(self)@),
                Err(e) => {
                    &&& old(self)@.cancel_stream(sender, stream_id, now) == Err::<
                        MicropaymentsModel,
                        StreamError,
                    >(e)
                    &&& final(self)@ == old(self)@
                },
            },
    {
        let mut stream = match self.streams.get(&stream_id) {
            Some(s) => s.duplicate(),
            None => return Err(StreamError::StreamNotFound),
        };
        if !stream.sender.matches(&sender) {
            return Err(StreamError::NotStreamSender);
        }
        if stream.status != StreamStatus::Active && stream.status != StreamStatus::Paused {
            return Err(StreamError::StreamClosed);
        }
        let earned: i128 = match stream.checked_claimable(now) {
            Some(a) => a,
            None => return Err(StreamError::ArithmeticOverflow),
        };
        let remaining: i128 = match stream.deposit.checked_sub(stream.withdrawn) {
            Some(x) => x,
            None => return Err(StreamError::ArithmeticOverflow),
        };
        let refund: i128 = match remaining.checked_sub(earned) {
            Some(x) => x,
            None => return Err(StreamError::ArithmeticOverflow),
        };
        let ghost s = stream;
        let ghost before = self.actions@;
        let ghost to_recipient = if earned > 0 {
            seq![
                StreamAction::Pay(
                    Transfer {
                        token: s.token,
                        from: Party::ThisContract,
                        to: Party::Account(s.recipient),
                        amount: earned,
                    },
                ),
            ]
        } else {
            Seq::<StreamAction>::empty()
        };
        let ghost to_sender = if refund > 0 {
            seq![
                StreamAction::Pay(
                    Transfer {
                        token: s.token,
                        from: Party::ThisContract,
                        to: Party::Account(sender),
                        amount: refund,
                    },
                ),
            ]
        } else {
            Seq::<StreamAction>::empty()
        };
        if earned > 0 {
            self.actions.push(
                StreamAction::Pay(
                    Transfer {
                        token: stream.token.duplicate(),
                        from: Party::ThisContract,
                        to: Party::Account(stream.recipient.duplicate()),
                        amount: earned,
                    },
                ),
            );
            stream.withdrawn = stream.withdrawn + earned;
        }
        assert(self.actions@ =~= before + to_recipient);
        if refund > 0 {
            self.actions.push(
                StreamAction::Pay(
                    Transfer {
                        token: stream.token.duplicate(),
                        from: Party::ThisContract,
                        to: Party::Account(sender.duplicate()),
                        amount: refund,
                    },
                ),
            );
        }
        assert(self.actions@ =~= before + to_recipient + to_sender);
        stream.status = StreamStatus::Cancelled;
        self.streams.insert(stream_id, stream);
        self.actions.push(StreamAction::Emit(StreamEvent::Cancelled { sender, stream_id }));
        assert(self.actions@ =~= before + to_recipient + to_sender + seq![
            StreamAction::Emit(StreamEvent::Cancelled { sender, stream_id }),
        ]);
        Ok(())
    }

    /// Pause an active stream (sender only). It stops accruing at `now`; what
    /// it earned until then stays owed to the recipient.
    pub fn pause_stream(&mut self, sender: Address, stream_id: u64, now: u64) -> (r: Result<
        (),
        StreamError,
    >)
        requires
            old(self)@.wf(),
        ensures
            final(self)@.wf(),
            match r {
                Ok(()) => old(self)@.pause_stream(sender, stream_id, now) == Ok::<
                    MicropaymentsModel,
                    StreamError,
                >(final(self)@),
                Err(e) => {
                    &&& old(self)@.pause_stream(sender, stream_id, now) == Err::<
                        MicropaymentsModel,
                        StreamError,
                    >(e)
                    &&& final(self)@ == old(self)@
                },
            },
    {
        let mut stream = match self.streams.get(&stream_id) {
            Some(s) => s.duplicate(),
            None => return Err(StreamError::StreamNotFound),
        };
        if !stream.sender.matches(&sender) {
            return Err(StreamError::NotStreamSender);
        }
        if stream.status != StreamStatus::Active {
            return Err(StreamError::StreamNotActive);
        }
        stream.paused_at = now;
        stream.status = StreamStatus::Paused;
        self.streams.insert(stream_id, stream);
        Ok(())
    }

    /// Resume a paused stream (sender only); accrual restarts from `now`.
    pub fn resume_stream(&mut self, sender: Address, stream_id: u64, now: u64) -> (r: Result<
        (),
        StreamError,
    >)
        requires
            old(self)@.wf(),
        ensures
            final(self)@.wf(),
            match r {
                Ok(()) => old(self)@.resume_stream(sender, stream_id, now) == Ok::<
                    MicropaymentsModel,
                    StreamError,
                >(final(self)@),
                Err(e) => {
                    &&& old(self)@.resume_stream(sender, stream_id, now) == Err::<
                        MicropaymentsModel,
                        StreamError,
                    >(e)
                    &&& final(self)@ == old(self)@
                },
            },
    {
        let mut stream = match self.streams.get(&stream_id) {
            Some(s) => s.duplicate(),
            None => return Err(StreamError::StreamNotFound),
        };
        if !stream.sender.matches(&sender) {
            return Err(StreamError::NotStreamSender);
        }
        if stream.status != StreamStatus::Paused {
            return Err(StreamError::StreamNotPaused);
        }
        let fresh: u64 = stream.fresh_seconds_exec(now);
        stream.banked_seconds = stream.banked_seconds.saturating_add(fresh);
        stream.status = StreamStatus::Active;
        stream.last_settled = now;
        stream.paused_at = 0;
        self.streams.insert(stream_id, stream);
        Ok(())
    }

    /// The stream kept under `stream_id`, if any.
    pub fn get_stream(&self, stream_id: u64) -> (r: Option<PaymentStream>)
        ensures
            r == self@.stream(stream_id),
    {
        match self.streams.get(&stream_id) {
            Some(s) => Some(s.duplicate()),
            None => None,
        }
    }

    /// How much the recipient of `stream_id` could withdraw at `now`
    /// (zero for an unknown stream).
    pub fn claimable_amount(&self, stream_id: u64, now: u64) -> (r: Result<i128, StreamError>)
        ensures
            r == self@.claimable_amount(stream_id, now),
    {
        match self.streams.get(&stream_id) {
            Some(s) => match s.checked_claimable(now) {
                Some(a) => Ok(a),
                None => Err(StreamError::ArithmeticOverflow),
            },
            None => Ok(0),
        }
    }

    /// Total number of streams opened.
    pub fn stream_count(&self) -> (n: u64)
        ensures
            n == self@.stream_count,
    {
        self.stream_count
    }

    /// Hands over the transfers and events queued so far, oldest first, and
    /// clears the queue.
    pub fn take_actions(&mut self) -> (queued: Vec<StreamAction>)
        requires
            old(self)@.wf(),
        ensures
            queued@ == old(self)@.actions,
            final(self)@ == (MicropaymentsModel { actions: Seq::empty(), ..old(self)@ }),
            final(self)@.wf(),
    {
        let mut queued = Vec::new();
        std::mem::swap(&mut queued, &mut self.actions);
        queued
    }
}

} // verus!
