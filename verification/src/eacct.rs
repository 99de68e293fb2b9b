//! Energy-accounting engine: samples a current sensor on demand, after a
//! delay, or periodically, converts raw samples into a milliwatt estimate
//! through a fixed calibration, and accumulates the estimates in a bounded
//! per-client usage ledger.
//!
//! The engine is callback-driven and never blocks. Each call returns a
//! result code together with the hardware action the caller must perform
//! (start a sample, arm the alarm); completions come back through
//! [`EnergyAccount::alarm`] and [`EnergyAccount::sample_ready`].

use vstd::prelude::*;

use crate::ClientId;
use crate::ReturnCode;
use crate::hil::AcctAction;
use crate::hil::EnergyAccounting;
use crate::hil::Heuristic;
use crate::hil::heuristic_valid;

verus! {

/// Raw sensor value that corresponds to a current of zero.
pub const CALIBRATION_REFERENCE: u16 = 630;

/// Raw sensor units per milliamp above the reference.
pub const VAL_PER_MILLIAMP: u16 = 13;

/// One slot of the usage ledger: a client and its accumulated usage.
#[derive(Clone, Copy, PartialEq, Eq, Structural, Debug)]
pub struct Entry {
    /// The client this slot belongs to.
    pub client: ClientId,
    /// Accumulated usage, in milliwatt-derived units.
    pub used: u64,
}

impl Entry {
    /// A ledger slot for `id` starting at `used`.
    pub fn new(id: ClientId, used: u64) -> (e: Entry)
        ensures
            e == (Entry { client: id, used: used }),
    {
        Entry { client: id, used: used }
    }
}

/// The ledger slot holds an entry for client `c`.
pub open spec fn entry_for(slot: Option<Entry>, c: ClientId) -> bool {
    slot matches Some(e) && e.client == c
}

/// Some ledger slot holds an entry for client `c`.
pub open spec fn has_client(s: Seq<Option<Entry>>, c: ClientId) -> bool {
    exists|i: int| 0 <= i < s.len() && #[trigger] entry_for(s[i], c)
}

/// No two ledger slots hold entries for the same client.
pub open spec fn clients_unique(s: Seq<Option<Entry>>) -> bool {
    forall|i: int, j: int, c: ClientId|
        0 <= i < s.len() && 0 <= j < s.len() && #[trigger] entry_for(s[i], c)
            && #[trigger] entry_for(s[j], c) ==> i == j
}

/// Some ledger slot is free.
pub open spec fn has_free_slot(s: Seq<Option<Entry>>) -> bool {
    exists|i: int| 0 <= i < s.len() && (#[trigger] s[i]) is None
}

/// The usage recorded for client `c`, if any. Well-defined on ledgers whose
/// clients are unique.
pub open spec fn usage_in(s: Seq<Option<Entry>>, c: ClientId) -> Option<u64> {
    if has_client(s, c) {
        let i = choose|i: int| 0 <= i < s.len() && #[trigger] entry_for(s[i], c);
        Some(s[i]->0.used)
    } else {
        None
    }
}

/// Addition on accumulated usage, capped at the largest representable value.
pub open spec fn sat_add_u64(a: u64, b: u64) -> u64 {
    if a + b <= u64::MAX {
        (a + b) as u64
    } else {
        u64::MAX
    }
}

/// The usage recorded for `c` after `amount` is accounted to it: added to an
/// existing entry, started in a free slot, or dropped when the ledger is
/// full and `c` has no entry.
pub open spec fn expected_usage(s: Seq<Option<Entry>>, c: ClientId, amount: u64) -> Option<u64> {
    match usage_in(s, c) {
        Some(u) => Some(sat_add_u64(u, amount)),
        None => if has_free_slot(s) {
            Some(amount)
        } else {
            None
        },
    }
}

/// Ledger `s2` is ledger `s1` after `amount` was accounted to client `c`:
/// same size, `c` at its expected usage, every other client untouched, and
/// entirely unchanged when the ledger was full and `c` absent.
pub open spec fn accounted(
    s1: Seq<Option<Entry>>,
    s2: Seq<Option<Entry>>,
    c: ClientId,
    amount: u64,
) -> bool {
    &&& s2.len() == s1.len()
    &&& usage_in(s2, c) == expected_usage(s1, c, amount)
    &&& forall|c2: ClientId| c2 != c ==> #[trigger] usage_in(s2, c2) == usage_in(s1, c2)
    &&& (!has_client(s1, c) && !has_free_slot(s1) ==> s2 == s1)
}

/// Normalized sensor reading: the raw sample shifted down so that readings
/// from sensors of any resolution share one scale.
pub open spec fn spec_adc_value(sample: u16, resolution_bits: u32) -> u16
    recommends
        1 <= resolution_bits <= 16,
{
    sample >> (16 - resolution_bits) as u16
}

/// Milliamps for a normalized reading: the calibration reference is
/// subtracted (floored at zero) and the rest divided by the per-milliamp
/// scale.
pub open spec fn spec_milliamps(adc_value: u16) -> u64 {
    if adc_value >= CALIBRATION_REFERENCE {
        (((adc_value - CALIBRATION_REFERENCE) as u16 / VAL_PER_MILLIAMP) as u64)
    } else {
        0
    }
}

/// Milliwatt estimate for a raw sample: `milliamps * 3 + milliamps / 3`, an
/// integer approximation of the supply voltage times the current.
pub open spec fn spec_milliwatts(sample: u16, resolution_bits: u32) -> u64
    recommends
        1 <= resolution_bits <= 16,
{
    let ma = spec_milliamps(spec_adc_value(sample, resolution_bits));
    (ma * 3 + ma / 3) as u64
}

/// Usage increment for one recurrent measurement: the milliwatt estimate
/// scaled by the ratio of the sampling period to one second, approximating
/// power integration over the period.
pub open spec fn spec_increment(milliwatts: u64, period_ms: u32) -> u64
    recommends
        period_ms >= 1,
{
    if period_ms <= 1000 {
        milliwatts / ((1000 as u32 / period_ms) as u64)
    } else {
        (milliwatts * ((period_ms / 1000) as u64)) as u64
    }
}

/// The energy-accounting engine: the active heuristic and the usage ledger.
pub struct EnergyAccount {
    no_entries: usize,
    entries: Vec<Option<Entry>>,
    status: Option<Heuristic>,
}

impl EnergyAccount {
    /// The usage ledger, slot by slot.
    pub closed spec fn ledger(&self) -> Seq<Option<Entry>> {
        self.entries@
    }

    /// Number of ledger slots; fixed at construction.
    pub closed spec fn capacity(&self) -> usize {
        self.no_entries
    }

    /// The heuristic currently being served, if any.
    pub closed spec fn active(&self) -> Option<Heuristic> {
        self.status
    }

    /// Invariant: the ledger fills its fixed capacity, no client appears
    /// twice, and any stored heuristic is valid.
    pub open spec fn wf(&self) -> bool {
        &&& self.capacity() == self.ledger().len()
        &&& clients_unique(self.ledger())
        &&& (self.active() matches Some(h) ==> heuristic_valid(h))
    }

    /// An engine with an empty ledger of `no_entries` slots and no active
    /// heuristic.
    pub fn new(no_entries: usize) -> (r: EnergyAccount)
        ensures
            r.wf(),
            r.capacity() == no_entries,
            r.active() is None,
            forall|i: int| 0 <= i < r.ledger().len() ==> (#[trigger] r.ledger()[i]) is None,
            forall|c: ClientId| #[trigger] usage_in(r.ledger(), c) is None,
    {
        let mut entries: Vec<Option<Entry>> = Vec::new();
        let mut i: usize = 0;
        while i < no_entries
            invariant
                i <= no_entries,
                entries@.len() == i,
                forall|j: int| 0 <= j < i ==> (#[trigger] entries@[j]) is None,
            decreases no_entries - i,
        {
            entries.push(None);
            i += 1;
        }
        let r = EnergyAccount { no_entries, entries, status: None };
        proof {
            assert forall|c: ClientId| #[trigger] usage_in(r.ledger(), c) is None by {
                assert(forall|k: int| 0 <= k < r.ledger().len() ==> !entry_for(
                    #[trigger] r.ledger()[k],
                    c,
                ));
            }
        }
        r
    }

    /// Add `mws` to the running total for `app_id`: onto an existing entry,
    /// into the first free slot when the client is new, and dropped without
    /// touching any other entry when the ledger is full.
    pub fn account(&mut self, app_id: ClientId, mws: u64)
        requires
            old(self).wf(),
        ensures
            final (self).wf(),
            final (self).capacity() == old(self).capacity(),
            final (self).active() == old(self).active(),
            accounted(old(self).ledger(), final (self).ledger(), app_id, mws),
    {
        let n = self.entries.len();
        let mut i: usize = 0;
        while i < n
            invariant
                self.no_entries == old(self).no_entries,
                self.entries@ == old(self).entries@,
                self.status == old(self).status,
                old(self).wf(),
                n == self.entries@.len(),
                i <= n,
                forall|j: int| 0 <= j < i ==> !entry_for(#[trigger] self.entries@[j], app_id),
            decreases n - i,
        {
            let hit = match &self.entries[i] {
                Some(e) => e.client == app_id,
                None => false,
            };
            if hit {
                let old_used = match &self.entries[i] {
                    Some(e) => e.used,
                    None => 0,
                };
                let new_used = if old_used <= u64::MAX - mws {
                    old_used + mws
                } else {
                    u64::MAX
                };
                let ghost s1 = self.entries@;
                self.entries[i] = Some(Entry { client: app_id, used: new_used });
                proof {
                    lemma_account_update(s1, self.entries@, i as int, app_id, mws);
                }
                return ;
            }
            i += 1;
        }
        let mut k: usize = 0;
        while k < n
            invariant
                self.no_entries == old(self).no_entries,
                self.entries@ == old(self).entries@,
                self.status == old(self).status,
                old(self).wf(),
                n == self.entries@.len(),
                k <= n,
                forall|j: int| 0 <= j < n ==> !entry_for(#[trigger] self.entries@[j], app_id),
                forall|j: int| 0 <= j < k ==> (#[trigger] self.entries@[j]) is Some,
            decreases n - k,
        {
            let free = self.entries[k].is_none();
            if free {
                let ghost s1 = self.entries@;
                self.entries[k] = Some(Entry { client: app_id, used: mws });
                proof {
                    lemma_account_insert(s1, self.entries@, k as int, app_id, mws);
                }
                return ;
            }
            k += 1;
        }
        proof {
            assert(!has_client(self.entries@, app_id));
            assert(!has_free_slot(self.entries@));
        }
    }

    /// Look up the accumulated usage for `app_id`.
    pub fn usage_of(&self, app_id: ClientId) -> (r: Option<u64>)
        requires
            self.wf(),
        ensures
            r == usage_in(self.ledger(), app_id),
    {
        let n = self.entries.len();
        let mut i: usize = 0;
        while i < n
            invariant
                self.wf(),
                n == self.entries@.len(),
                i <= n,
                forall|j: int| 0 <= j < i ==> !entry_for(#[trigger] self.entries@[j], app_id),
            decreases n - i,
        {
            match &self.entries[i] {
                Some(e) => {
                    if e.client == app_id {
                        proof {
                            assert(entry_for(self.entries@[i as int], app_id));
                            let w = choose|w: int|
                                0 <= w < self.entries@.len() && #[trigger] entry_for(
                                    self.entries@[w],
                                    app_id,
                                );
                            assert(entry_for(self.entries@[w], app_id));
                            assert(w == i);
                        }
                        return Some(e.used);
                    }
                },
                None => {},
            }
            i += 1;
        }
        proof {
            assert(!has_client(self.entries@, app_id));
        }
        None
    }

    /// Handle the expired alarm of a deferred or recurrent measurement: the
    /// caller disarms the expired alarm and, when `Sample` comes back,
    /// starts one sensor sample. Any other stored heuristic means the alarm
    /// fired in a state that does not expect it.
    pub fn alarm(&self) -> (r: (ReturnCode, AcctAction))
        ensures
            r == (match self.active() {
                Some(Heuristic::After(_, _)) => (ReturnCode::Success, AcctAction::Sample),
                Some(Heuristic::Recurrent(_, _)) => (ReturnCode::Success, AcctAction::Sample),
                _ => (ReturnCode::InvalidState, AcctAction::Nothing),
            }),
    {
        match &self.status {
            Some(Heuristic::After(_, _)) => (ReturnCode::Success, AcctAction::Sample),
            Some(Heuristic::Recurrent(_, _)) => (ReturnCode::Success, AcctAction::Sample),
            _ => (ReturnCode::InvalidState, AcctAction::Nothing),
        }
    }

    /// Convert one raw sample to a milliwatt estimate using the fixed
    /// calibration: subtract the reference (floored at zero), divide by the
    /// per-milliamp scale, and approximate the supply voltage as
    /// `3 + 1/3` volts.
    pub fn milliwatts_from_sample(sample: u16, resolution_bits: u32) -> (r: u64)
        requires
            1 <= resolution_bits <= 16,
        ensures
            r == spec_milliwatts(sample, resolution_bits),
            r <= 21845,
    {
        let offset = (16 - resolution_bits) as u16;
        let adc_value: u16 = sample >> offset;
        let milliamps: u64 = if adc_value >= CALIBRATION_REFERENCE {
            ((adc_value - CALIBRATION_REFERENCE) / VAL_PER_MILLIAMP) as u64
        } else {
            0
        };
        milliamps * 3 + milliamps / 3
    }

    /// Handle a sensor sample: convert it to a milliwatt estimate, scale it
    /// for a recurrent heuristic by the sampling period, and account it to
    /// the requesting client. A recurrent heuristic survives and asks the
    /// caller to re-arm the alarm; any other heuristic is consumed.
    pub fn sample_ready(&mut self, sample: u16, resolution_bits: u32) -> (r: AcctAction)
        requires
            old(self).wf(),
            1 <= resolution_bits <= 16,
        ensures
            final (self).wf(),
            final (self).capacity() == old(self).capacity(),
            old(self).active() is None ==> *final (self) == *old(self) && r == AcctAction::Nothing,
            old(self).active() matches Some(Heuristic::Instant(c)) ==> final (self).active()
                is None && r == AcctAction::Nothing && accounted(
                old(self).ledger(),
                final (self).ledger(),
                c,
                spec_milliwatts(sample, resolution_bits),
            ),
            old(self).active() matches Some(Heuristic::After(c, _)) ==> final (self).active()
                is None && r == AcctAction::Nothing && accounted(
                old(self).ledger(),
                final (self).ledger(),
                c,
                spec_milliwatts(sample, resolution_bits),
            ),
            old(self).active() matches Some(Heuristic::Recurrent(c, p)) ==> final (self).active()
                == old(self).active() && r == AcctAction::Arm(p) && accounted(
                old(self).ledger(),
                final (self).ledger(),
                c,
                spec_increment(spec_milliwatts(sample, resolution_bits), p),
            ),
    {
        let current = self.status;
        if current.is_none() {
            return AcctAction::Nothing;
        }
        self.status = None;
        let milliwatts = Self::milliwatts_from_sample(sample, resolution_bits);
        match current {
            Some(Heuristic::Instant(app_id)) => {
                self.account(app_id, milliwatts);
                AcctAction::Nothing
            },
            Some(Heuristic::After(app_id, _delay)) => {
                self.account(app_id, milliwatts);
                AcctAction::Nothing
            },
            Some(Heuristic::Recurrent(app_id, interval)) => {
                let increment: u64 = if interval <= 1000 {
                    proof {
                        assert(1 <= interval);
                        assert(1000 as u32 / interval >= 1) by (nonlinear_arith)
                            requires
                                1 <= interval <= 1000,
                        ;
                    }
                    let estimate_div = 1000 / interval;
                    milliwatts / (estimate_div as u64)
                } else {
                    let estimate_fac = interval / 1000;
                    proof {
                        assert(estimate_fac <= 4294967);
                        assert(milliwatts * (estimate_fac as u64) <= 21845 * 4294967)
                            by (nonlinear_arith)
                            requires
                                milliwatts <= 21845 && estimate_fac <= 4294967,
                        ;
                    }
                    milliwatts * (estimate_fac as u64)
                };
                self.account(app_id, increment);
                let (_rc, action) = self.measure(Heuristic::Recurrent(app_id, interval));
                action
            },
            None => AcctAction::Nothing,
        }
    }

    /// Initiate a measurement governed by `how`: rejected with a busy signal
    /// while another heuristic is active; otherwise stored, and the caller
    /// is asked to start a sample (`Instant`) or arm the alarm for the given
    /// delay or period.
    pub fn measure(&mut self, how: Heuristic) -> (r: (ReturnCode, AcctAction))
        requires
            old(self).wf(),
            heuristic_valid(how),
        ensures
            final (self).wf(),
            final (self).ledger() == old(self).ledger(),
            final (self).capacity() == old(self).capacity(),
            old(self).active() is Some ==> final (self).active() == old(self).active() && r == (
                ReturnCode::Busy,
                AcctAction::Nothing,
            ),
            old(self).active() is None ==> final (self).active() == Some(how) && r == (
                ReturnCode::Success,
                (match how {
                    Heuristic::Instant(_) => AcctAction::Sample,
                    Heuristic::After(_, delay) => AcctAction::Arm(delay),
                    Heuristic::Recurrent(_, interval) => AcctAction::Arm(interval),
                }),
            ),
    {
        if self.status.is_some() {
            (ReturnCode::Busy, AcctAction::Nothing)
        } else {
            self.status = Some(how);
            match how {
                Heuristic::Instant(_) => (ReturnCode::Success, AcctAction::Sample),
                Heuristic::After(_, delay) => (ReturnCode::Success, AcctAction::Arm(delay)),
                Heuristic::Recurrent(_, interval) => (
                    ReturnCode::Success,
                    AcctAction::Arm(interval),
                ),
            }
        }
    }

    /// Stop the active measurement on behalf of `app_id`: succeeds, clears
    /// the heuristic and asks the caller to disarm the alarm only when the
    /// active heuristic is recurrent and owned by `app_id`; fails with no
    /// side effect otherwise.
    pub fn stop(&mut self, app_id: ClientId) -> (r: (ReturnCode, bool))
        requires
            old(self).wf(),
        ensures
            final (self).wf(),
            final (self).ledger() == old(self).ledger(),
            final (self).capacity() == old(self).capacity(),
            (old(self).active() matches Some(Heuristic::Recurrent(c, _)) && c == app_id)
                ==> final (self).active() is None && r == (ReturnCode::Success, true),
            !(old(self).active() matches Some(Heuristic::Recurrent(c, _)) && c == app_id)
                ==> *final (self) == *old(self) && r == (ReturnCode::Fail, false),
    {
        let valid = match &self.status {
            Some(Heuristic::Recurrent(current_app_id, _interval)) => *current_app_id == app_id,
            _ => false,
        };
        if valid {
            self.status = None;
            (ReturnCode::Success, true)
        } else {
            (ReturnCode::Fail, false)
        }
    }

    /// The numbered command surface of the engine: 0 probes for existence,
    /// 5 reports the caller's accumulated usage (zero when absent); other
    /// command numbers are not supported.
    pub fn command(&self, minor_num: usize, _r2: usize, _r3: usize, caller_id: ClientId) -> (r:
        ReturnCode)
        requires
            self.wf(),
        ensures
            minor_num == 0 ==> r == ReturnCode::Success,
            minor_num == 5 ==> r == (match usage_in(self.ledger(), caller_id) {
                Some(u) => ReturnCode::SuccessWithValue(u),
                None => ReturnCode::SuccessWithValue(0),
            }),
            minor_num != 0 && minor_num != 5 ==> r == ReturnCode::NotSupported,
    {
        if minor_num == 0 {
            ReturnCode::Success
        } else if minor_num == 5 {
            match self.usage_of(caller_id) {
                Some(usage) => ReturnCode::SuccessWithValue(usage),
                None => ReturnCode::SuccessWithValue(0),
            }
        } else {
            ReturnCode::NotSupported
        }
    }
}

impl EnergyAccounting for EnergyAccount {
    open spec fn acct_inv(&self) -> bool {
        self.wf()
    }

    fn measure(&mut self, how: Heuristic) -> (r: (ReturnCode, AcctAction)) {
        self.measure(how)
    }

    fn stop(&mut self, app_id: ClientId) -> (r: (ReturnCode, bool)) {
        self.stop(app_id)
    }
}

/// Every client other than `c` keeps its usage when only slot `i`, which
/// never belongs to another client, changes between two unique ledgers.
proof fn lemma_usage_frame(s1: Seq<Option<Entry>>, s2: Seq<Option<Entry>>, i: int, c: ClientId)
    requires
        0 <= i < s1.len(),
        s2.len() == s1.len(),
        forall|j: int| 0 <= j < s1.len() && j != i ==> s1[j] == s2[j],
        forall|c2: ClientId| c2 != c ==> !entry_for(s1[i], c2) && !entry_for(s2[i], c2),
        clients_unique(s1),
        clients_unique(s2),
    ensures
        forall|c2: ClientId| c2 != c ==> #[trigger] usage_in(s2, c2) == usage_in(s1, c2),
{
    assert forall|c2: ClientId| c2 != c implies #[trigger] usage_in(s2, c2) == usage_in(s1, c2) by {
        if has_client(s1, c2) {
            let k1 = choose|k: int| 0 <= k < s1.len() && #[trigger] entry_for(s1[k], c2);
            assert(entry_for(s1[k1], c2));
            assert(k1 != i);
            assert(entry_for(s2[k1], c2));
            assert(has_client(s2, c2));
        }
        if has_client(s2, c2) {
            let k2 = choose|k: int| 0 <= k < s2.len() && #[trigger] entry_for(s2[k], c2);
            assert(entry_for(s2[k2], c2));
            assert(k2 != i);
            assert(entry_for(s1[k2], c2));
            assert(has_client(s1, c2));
        }
        if has_client(s1, c2) && has_client(s2, c2) {
            let k1 = choose|k: int| 0 <= k < s1.len() && #[trigger] entry_for(s1[k], c2);
            let k2 = choose|k: int| 0 <= k < s2.len() && #[trigger] entry_for(s2[k], c2);
            assert(entry_for(s1[k1], c2));
            assert(entry_for(s2[k2], c2));
            assert(k2 != i);
            assert(entry_for(s1[k2], c2));
            assert(k1 == k2);
            assert(s2[k2] == s1[k1]);
        }
    }
}

/// Updating the one slot that already belongs to `c` with the saturated sum
/// accounts `amount` to `c`.
proof fn lemma_account_update(
    s1: Seq<Option<Entry>>,
    s2: Seq<Option<Entry>>,
    i: int,
    c: ClientId,
    amount: u64,
)
    requires
        clients_unique(s1),
        0 <= i < s1.len(),
        entry_for(s1[i], c),
        s2 == s1.update(i, Some(Entry { client: c, used: sat_add_u64(s1[i]->0.used, amount) })),
    ensures
        clients_unique(s2),
        accounted(s1, s2, c, amount),
{
    assert(entry_for(s2[i], c));
    assert forall|a: int, b: int, c2: ClientId|
        0 <= a < s2.len() && 0 <= b < s2.len() && #[trigger] entry_for(s2[a], c2)
            && #[trigger] entry_for(s2[b], c2) implies a == b by {
        if a == i && b == i {
        } else if a == i {
            assert(c2 == c);
            assert(entry_for(s1[b], c));
            assert(entry_for(s1[i], c));
        } else if b == i {
            assert(c2 == c);
            assert(entry_for(s1[a], c));
            assert(entry_for(s1[i], c));
        } else {
            assert(entry_for(s1[a], c2));
            assert(entry_for(s1[b], c2));
        }
    }
    // usage of c before: the unique witness is i
    assert(has_client(s1, c));
    let k1 = choose|k: int| 0 <= k < s1.len() && #[trigger] entry_for(s1[k], c);
    assert(entry_for(s1[k1], c));
    assert(k1 == i);
    assert(usage_in(s1, c) == Some(s1[i]->0.used));
    // usage of c after: the unique witness is i
    assert(has_client(s2, c));
    let k2 = choose|k: int| 0 <= k < s2.len() && #[trigger] entry_for(s2[k], c);
    assert(entry_for(s2[k2], c));
    assert(k2 == i);
    assert(usage_in(s2, c) == Some(sat_add_u64(s1[i]->0.used, amount)));
    lemma_usage_frame(s1, s2, i, c);
}

/// Filling a free slot with a fresh entry for an absent client `c` accounts
/// `amount` to `c`.
proof fn lemma_account_insert(
    s1: Seq<Option<Entry>>,
    s2: Seq<Option<Entry>>,
    i: int,
    c: ClientId,
    amount: u64,
)
    requires
        clients_unique(s1),
        0 <= i < s1.len(),
        s1[i] is None,
        !has_client(s1, c),
        s2 == s1.update(i, Some(Entry { client: c, used: amount })),
    ensures
        clients_unique(s2),
        accounted(s1, s2, c, amount),
{
    assert(entry_for(s2[i], c));
    assert forall|a: int, b: int, c2: ClientId|
        0 <= a < s2.len() && 0 <= b < s2.len() && #[trigger] entry_for(s2[a], c2)
            && #[trigger] entry_for(s2[b], c2) implies a == b by {
        if a == i && b == i {
        } else if a == i {
            assert(c2 == c);
            assert(entry_for(s1[b], c));
            assert(has_client(s1, c));
        } else if b == i {
            assert(c2 == c);
            assert(entry_for(s1[a], c));
            assert(has_client(s1, c));
        } else {
            assert(entry_for(s1[a], c2));
            assert(entry_for(s1[b], c2));
        }
    }
    assert(usage_in(s1, c) is None);
    assert(has_free_slot(s1));
    assert(has_client(s2, c));
    let k2 = choose|k: int| 0 <= k < s2.len() && #[trigger] entry_for(s2[k], c);
    assert(entry_for(s2[k2], c));
    assert(k2 == i);
    assert(usage_in(s2, c) == Some(amount));
    lemma_usage_frame(s1, s2, i, c);
}

} // verus!
