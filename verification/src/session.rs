use vstd::prelude::*;
use crate::errors::ServiceError;
use crate::requests::RequestKind;

verus! {

/// Where the finish loop stands on the one rollup channel.
///
/// `AwaitingNextRequest` covers the whole device transaction: from the
/// moment a finish signal is dispatched until the device hands back the
/// next request's discriminator, which may take arbitrarily long. While a
/// session is in that phase no other device transaction may begin.
#[derive(Clone, Copy, Debug, PartialEq, Eq, Structural)]
pub enum Phase {
    WaitingForFinish,
    AwaitingNextRequest { accept: bool },
    RequestReady { kind: RequestKind },
}

/// The server's view of the one rollup device channel: the finish-loop
/// phase, and a mirror of the voucher and notice index sequences the
/// device assigns within the processing cycle under way.
///
/// A session must only be driven under the channel's exclusive access; the
/// phase preconditions below spell out the one-in-flight discipline.
#[derive(Clone, Copy, Debug, PartialEq, Eq, Structural)]
pub struct Session {
    pub phase: Phase,
    pub voucher_count: u64,
    pub notice_count: u64,
}

/// What a finish signal means: `"accept"` and `"reject"` map to the boolean
/// handed to the device; every other literal is invalid.
pub open spec fn accept_of(status: Seq<char>) -> Option<bool> {
    if status == "accept"@ {
        Some(true)
    } else if status == "reject"@ {
        Some(false)
    } else {
        None
    }
}

/// The state after the device reports the next request's discriminator:
/// 0 or 1 starts a fresh cycle with both index counters at 0; any other
/// value returns the channel to `WaitingForFinish` unpoisoned.
pub open spec fn spec_request_arrived(s: Session, discriminator: u64) -> (Session, Result<
    RequestKind,
    ServiceError,
>) {
    if discriminator == 0 {
        (
            Session {
                phase: Phase::RequestReady { kind: RequestKind::Advance },
                voucher_count: 0,
                notice_count: 0,
            },
            Ok(RequestKind::Advance),
        )
    } else if discriminator == 1 {
        (
            Session {
                phase: Phase::RequestReady { kind: RequestKind::Inspect },
                voucher_count: 0,
                notice_count: 0,
            },
            Ok(RequestKind::Inspect),
        )
    } else {
        (
            Session { phase: Phase::WaitingForFinish, ..s },
            Err(ServiceError::UnrecognizedRequestType),
        )
    }
}

/// The index the protocol owes the next successful voucher write, and the
/// session after it: indices count up from 0 within one cycle.
pub open spec fn spec_assign_voucher_index(s: Session) -> (Session, u64) {
    (Session { voucher_count: (s.voucher_count + 1) as u64, ..s }, s.voucher_count)
}

/// The index the protocol owes the next successful notice write.
pub open spec fn spec_assign_notice_index(s: Session) -> (Session, u64) {
    (Session { notice_count: (s.notice_count + 1) as u64, ..s }, s.notice_count)
}

/// Validates the DApp's completion signal before anything else happens:
/// `"accept"`/`"reject"` map to the boolean the device's finish
/// transaction takes; any other literal fails validation, and the caller
/// must not touch the channel for it.
pub fn parse_finish_status(status: &String) -> (r: Result<bool, ServiceError>)
    ensures
        accept_of(status@) matches Some(accept) ==> r == Ok::<bool, ServiceError>(accept),
        accept_of(status@) is None ==> r == Err::<bool, ServiceError>(
            ServiceError::InvalidFinishStatus,
        ),
{
    let accept_literal: String = "accept".to_owned();
    let reject_literal: String = "reject".to_owned();
    if *status == accept_literal {
        Ok(true)
    } else if *status == reject_literal {
        Ok(false)
    } else {
        Err(ServiceError::InvalidFinishStatus)
    }
}

impl Session {
    /// Whether a finish transaction is in flight on the channel, during
    /// which no other transaction may start.
    pub open spec fn in_flight(self) -> bool {
        self.phase is AwaitingNextRequest
    }

    /// A fresh session on a newly opened channel.
    pub fn new() -> (s: Session)
        ensures
            s.phase == Phase::WaitingForFinish,
            s.voucher_count == 0,
            s.notice_count == 0,
    {
        Session { phase: Phase::WaitingForFinish, voucher_count: 0, notice_count: 0 }
    }

    /// Enters the finish transaction with an already validated completion
    /// signal (see `parse_finish_status`): the session holds the channel's
    /// exclusivity until the device answers or fails.
    pub fn dispatch_finish(&mut self, accept: bool)
        requires
            !old(self).in_flight(),
        ensures
            final(self).phase == (Phase::AwaitingNextRequest { accept }),
            final(self).voucher_count == old(self).voucher_count,
            final(self).notice_count == old(self).notice_count,
    {
        self.phase = Phase::AwaitingNextRequest { accept };
    }

    /// Takes the discriminator the device returned from the finish
    /// transaction. A recognized value starts a fresh processing cycle,
    /// resetting both index counters; an unrecognized one is a protocol
    /// failure for this request alone — the channel returns to
    /// `WaitingForFinish` and stays usable.
    pub fn request_arrived(&mut self, discriminator: u64) -> (r: Result<
        RequestKind,
        ServiceError,
    >)
        requires
            old(self).in_flight(),
        ensures
            (*final(self), r) == spec_request_arrived(*old(self), discriminator),
            discriminator > 1 ==> r is Err && !final(self).in_flight(),
    {
        match crate::requests::classify_request(discriminator) {
            Ok(kind) => {
                self.phase = Phase::RequestReady { kind };
                self.voucher_count = 0;
                self.notice_count = 0;
                Ok(kind)
            },
            Err(e) => {
                self.phase = Phase::WaitingForFinish;
                Err(e)
            },
        }
    }

    /// Records that the finish transaction itself failed at the device:
    /// the failure is surfaced for this request only and the channel
    /// returns to `WaitingForFinish` unpoisoned.
    pub fn finish_failed(&mut self)
        requires
            old(self).in_flight(),
        ensures
            final(self).phase == Phase::WaitingForFinish,
            final(self).voucher_count == old(self).voucher_count,
            final(self).notice_count == old(self).notice_count,
    {
        self.phase = Phase::WaitingForFinish;
    }

    /// Takes the index the device reported for a successful voucher write
    /// and returns it for the response, together with whether it matches
    /// the index the protocol owes (counting up from 0 within the cycle).
    /// The session then follows the device, so the next write is checked
    /// against the device's own sequence.
    pub fn record_voucher_index(&mut self, device_index: u64) -> (r: (u64, bool))
        requires
            !old(self).in_flight(),
        ensures
            r.0 == device_index,
            r.1 == (device_index == old(self).voucher_count),
            device_index < u64::MAX ==> final(self).voucher_count == device_index + 1,
            device_index == u64::MAX ==> final(self).voucher_count == u64::MAX,
            final(self).phase == old(self).phase,
            final(self).notice_count == old(self).notice_count,
            device_index == old(self).voucher_count && device_index < u64::MAX ==> (
                *final(self),
                r.0,
            ) == spec_assign_voucher_index(*old(self)),
    {
        let in_sequence = device_index == self.voucher_count;
        if device_index < u64::MAX {
            self.voucher_count = device_index + 1;
        } else {
            self.voucher_count = u64::MAX;
        }
        (device_index, in_sequence)
    }

    /// Takes the index the device reported for a successful notice write;
    /// same discipline check as for vouchers, on the separate notice
    /// sequence.
    pub fn record_notice_index(&mut self, device_index: u64) -> (r: (u64, bool))
        requires
            !old(self).in_flight(),
        ensures
            r.0 == device_index,
            r.1 == (device_index == old(self).notice_count),
            device_index < u64::MAX ==> final(self).notice_count == device_index + 1,
            device_index == u64::MAX ==> final(self).notice_count == u64::MAX,
            final(self).phase == old(self).phase,
            final(self).voucher_count == old(self).voucher_count,
            device_index == old(self).notice_count && device_index < u64::MAX ==> (
                *final(self),
                r.0,
            ) == spec_assign_notice_index(*old(self)),
    {
        let in_sequence = device_index == self.notice_count;
        if device_index < u64::MAX {
            self.notice_count = device_index + 1;
        } else {
            self.notice_count = u64::MAX;
        }
        (device_index, in_sequence)
    }
}

/// The indices the protocol owes `n` successive successful voucher
/// writes starting from session `s`.
pub open spec fn voucher_indices(s: Session, n: nat) -> Seq<u64>
    decreases n,
{
    if n == 0 {
        Seq::empty()
    } else {
        let (s1, index) = spec_assign_voucher_index(s);
        seq![index] + voucher_indices(s1, (n - 1) as nat)
    }
}

/// The indices the protocol owes `n` successive successful notice writes.
pub open spec fn notice_indices(s: Session, n: nat) -> Seq<u64>
    decreases n,
{
    if n == 0 {
        Seq::empty()
    } else {
        let (s1, index) = spec_assign_notice_index(s);
        seq![index] + notice_indices(s1, (n - 1) as nat)
    }
}

/// `n` successive writes are owed `n` indices.
pub proof fn lemma_index_seq_lengths(s: Session, n: nat)
    ensures
        voucher_indices(s, n).len() == n,
        notice_indices(s, n).len() == n,
    decreases n,
{
    if n > 0 {
        let (sv, _) = spec_assign_voucher_index(s);
        let (sn, _) = spec_assign_notice_index(s);
        lemma_index_seq_lengths(sv, (n - 1) as nat);
        lemma_index_seq_lengths(sn, (n - 1) as nat);
    }
}

/// The k-th of `n` successive voucher writes is assigned index
/// `s.voucher_count + k`.
pub proof fn lemma_voucher_index_values(s: Session, n: nat, k: int)
    requires
        s.voucher_count + n <= u64::MAX,
        0 <= k < n,
    ensures
        voucher_indices(s, n).len() == n,
        voucher_indices(s, n)[k] == s.voucher_count + k,
    decreases n,
{
    lemma_index_seq_lengths(s, n);
    let (s1, _) = spec_assign_voucher_index(s);
    if k > 0 {
        lemma_voucher_index_values(s1, (n - 1) as nat, k - 1);
    }
}

/// The k-th of `n` successive notice writes is assigned index
/// `s.notice_count + k`.
pub proof fn lemma_notice_index_values(s: Session, n: nat, k: int)
    requires
        s.notice_count + n <= u64::MAX,
        0 <= k < n,
    ensures
        notice_indices(s, n).len() == n,
        notice_indices(s, n)[k] == s.notice_count + k,
    decreases n,
{
    lemma_index_seq_lengths(s, n);
    let (s1, _) = spec_assign_notice_index(s);
    if k > 0 {
        lemma_notice_index_values(s1, (n - 1) as nat, k - 1);
    }
}

/// Law: once a recognized request starts a processing cycle, the voucher
/// indices returned within that cycle strictly increase starting at 0.
pub proof fn lemma_voucher_indices_strictly_increase(
    s: Session,
    discriminator: u64,
    n: nat,
    j: int,
    k: int,
)
    requires
        s.in_flight(),
        discriminator == 0 || discriminator == 1,
        n <= u64::MAX,
        0 <= j < k < n,
    ensures
        ({
            let (s0, r) = spec_request_arrived(s, discriminator);
            &&& r is Ok
            &&& voucher_indices(s0, n)[0] == 0
            &&& voucher_indices(s0, n)[j] == j
            &&& voucher_indices(s0, n)[k] == k
            &&& voucher_indices(s0, n)[j] < voucher_indices(s0, n)[k]
        }),
{
    let (s0, _) = spec_request_arrived(s, discriminator);
    lemma_voucher_index_values(s0, n, 0);
    lemma_voucher_index_values(s0, n, j);
    lemma_voucher_index_values(s0, n, k);
}

/// Law: notice indices behave the same way within one cycle.
pub proof fn lemma_notice_indices_strictly_increase(
    s: Session,
    discriminator: u64,
    n: nat,
    j: int,
    k: int,
)
    requires
        s.in_flight(),
        discriminator == 0 || discriminator == 1,
        n <= u64::MAX,
        0 <= j < k < n,
    ensures
        ({
            let (s0, r) = spec_request_arrived(s, discriminator);
            &&& r is Ok
            &&& notice_indices(s0, n)[0] == 0
            &&& notice_indices(s0, n)[j] == j
            &&& notice_indices(s0, n)[k] == k
            &&& notice_indices(s0, n)[j] < notice_indices(s0, n)[k]
        }),
{
    let (s0, _) = spec_request_arrived(s, discriminator);
    lemma_notice_index_values(s0, n, 0);
    lemma_notice_index_values(s0, n, j);
    lemma_notice_index_values(s0, n, k);
}

} // verus!
