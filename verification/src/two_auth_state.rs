//! The two-auth rules, their state, and how their verdicts combine.
//!
//! A rule looks at the amount of a transfer, the time and the destination,
//! and either asks for the co-signature of the two-auth entity or lets the
//! transfer pass. Some rules keep a counter or a window of what went through
//! them; evaluating such a rule also moves that state on.

use crate::duration::Duration;
use crate::error::TwoAuthError;
use crate::key::{contains_key, Key};
use crate::window::{CircularTimeWindow, WindowState};
use vstd::prelude::*;

verus! {

/// Whether the span `duration` has fully passed between `reset_time` and
/// `now`.
pub open spec fn period_over(duration: Duration, reset_time: i64, now: i64) -> bool {
    now - reset_time >= duration.total_seconds()
}

/// The counter of a counting rule after `amount` went through it: back at
/// zero where that reaches `max`, so that the rule asks for the second
/// signer, and grown by the amount otherwise. A sum beyond `u64::MAX`
/// reaches every `max`, so the counter never has to hold one.
pub open spec fn counter_after(base: u64, amount: u64, max: u64) -> u64 {
    if base + amount >= max {
        0
    } else {
        (base + amount) as u64
    }
}

/// What a rule holds, as plain values.
pub enum RuleState {
    Always,
    OnMax { max: u64 },
    Random,
    CounterResetOnMax { max: u64, counter: u64 },
    CounterResetOnTime { max: u64, duration: Duration, counter: u64, reset_time: i64 },
    CounterWithTimeWindow { max: u64, window: WindowState },
    DeactivateForUserSpecificWhiteList { white_list: Seq<Key> },
}

impl RuleState {
    /// The window of a windowed rule is a well-formed window.
    pub open spec fn wf(self) -> bool {
        self matches RuleState::CounterWithTimeWindow { window, .. } ==> window.wf()
    }

    /// The counter that a transfer of `amount` is added to: zero where the
    /// rule's period is over at `now`, the running counter otherwise.
    pub open spec fn counter_base(self, now: i64) -> u64 {
        match self {
            RuleState::CounterResetOnMax { counter, .. } => counter,
            RuleState::CounterResetOnTime { duration, counter, reset_time, .. } => if period_over(
                duration,
                reset_time,
                now,
            ) {
                0
            } else {
                counter
            },
            _ => 0,
        }
    }

    /// Whether the rule asks for the second signer on a transfer of `amount`
    /// to `destination` at `now`.
    pub open spec fn requires_second_signer(self, amount: u64, now: i64, destination: Key) -> bool {
        match self {
            RuleState::Always => true,
            RuleState::OnMax { max } => amount >= max,
            RuleState::Random => true,
            RuleState::CounterResetOnMax { max, .. } => self.counter_base(now) + amount >= max,
            RuleState::CounterResetOnTime { max, .. } => self.counter_base(now) + amount >= max,
            RuleState::CounterWithTimeWindow { max, window } => window.rolling_sum() + amount
                >= max,
            RuleState::DeactivateForUserSpecificWhiteList { white_list } => !white_list.contains(
                destination,
            ),
        }
    }

    /// The rule after it was evaluated for a transfer of `amount` at `now`.
    pub open spec fn after(self, amount: u64, now: i64) -> RuleState {
        match self {
            RuleState::CounterResetOnMax { max, counter } => RuleState::CounterResetOnMax {
                max,
                counter: counter_after(self.counter_base(now), amount, max),
            },
            RuleState::CounterResetOnTime {
                max,
                duration,
                counter,
                reset_time,
            } => RuleState::CounterResetOnTime {
                max,
                duration,
                counter: counter_after(self.counter_base(now), amount, max),
                reset_time: if period_over(duration, reset_time, now) {
                    now
                } else {
                    reset_time
                },
            },
            RuleState::CounterWithTimeWindow { max, window } => RuleState::CounterWithTimeWindow {
                max,
                window: window.add(now, amount),
            },
            _ => self,
        }
    }

    /// Bytes that the serialised rule takes.
    pub open spec fn init_len(self) -> int {
        match self {
            RuleState::Always => 1int,
            RuleState::OnMax { .. } => 1int + 8,
            RuleState::Random => 1int,
            RuleState::CounterResetOnMax { .. } => 1int + 8 + 8,
            RuleState::CounterResetOnTime { .. } => 1int + 8 + Duration::LEN + 8 + 8,
            RuleState::CounterWithTimeWindow { window, .. } => 1int + 8 + (1 + 4
                + window.buckets.len() * 8 + Duration::LEN + 8),
            RuleState::DeactivateForUserSpecificWhiteList { white_list } => 1int + 4 + 32
                * white_list.len(),
        }
    }
}

/// One configured rule, with the state it keeps.
#[derive(Debug)]
pub enum TwoAuthFunction {
    /// Always asks for the second signer.
    Always,
    /// Asks for the second signer from `max` upwards.
    OnMax { max: u64 },
    /// Meant to ask at random. No source of randomness is defined, so it
    /// always asks.
    Random,
    /// Adds the amounts up and asks once the counter reaches `max`, which
    /// sets the counter back to zero.
    CounterResetOnMax { max: u64, counter: u64 },
    /// As `CounterResetOnMax`, with a counter that also starts again when
    /// `duration` has passed since `reset_time`. Usually the time is a day.
    CounterResetOnTime { max: u64, duration: Duration, counter: u64, reset_time: i64 },
    /// Asks once the rolling sum of the window and the amount reach `max`.
    /// The sum is taken as the window stands, before the transfer is
    /// recorded in it. Usually the time is a month (30 days).
    CounterWithTimeWindow { max: u64, window: CircularTimeWindow },
    /// Asks unless the destination is on the user's own white list.
    DeactivateForUserSpecificWhiteList { white_list: Vec<Key> },
}

impl View for TwoAuthFunction {
    type V = RuleState;

    open spec fn view(&self) -> RuleState {
        match *self {
            TwoAuthFunction::Always => RuleState::Always,
            TwoAuthFunction::OnMax { max } => RuleState::OnMax { max },
            TwoAuthFunction::Random => RuleState::Random,
            TwoAuthFunction::CounterResetOnMax { max, counter } => RuleState::CounterResetOnMax {
                max,
                counter,
            },
            TwoAuthFunction::CounterResetOnTime {
                max,
                duration,
                counter,
                reset_time,
            } => RuleState::CounterResetOnTime { max, duration, counter, reset_time },
            TwoAuthFunction::CounterWithTimeWindow {
                max,
                window,
            } => RuleState::CounterWithTimeWindow { max, window: window@ },
            TwoAuthFunction::DeactivateForUserSpecificWhiteList {
                white_list,
            } => RuleState::DeactivateForUserSpecificWhiteList { white_list: white_list@ },
        }
    }
}

impl Clone for TwoAuthFunction {
    fn clone(&self) -> (copy: Self)
        ensures
            copy@ == self@,
    {
        match self {
            TwoAuthFunction::Always => TwoAuthFunction::Always,
            TwoAuthFunction::OnMax { max } => TwoAuthFunction::OnMax { max: *max },
            TwoAuthFunction::Random => TwoAuthFunction::Random,
            TwoAuthFunction::CounterResetOnMax {
                max,
                counter,
            } => TwoAuthFunction::CounterResetOnMax { max: *max, counter: *counter },
            TwoAuthFunction::CounterResetOnTime {
                max,
                duration,
                counter,
                reset_time,
            } => TwoAuthFunction::CounterResetOnTime {
                max: *max,
                duration: *duration,
                counter: *counter,
                reset_time: *reset_time,
            },
            TwoAuthFunction::CounterWithTimeWindow {
                max,
                window,
            } => TwoAuthFunction::CounterWithTimeWindow { max: *max, window: window.clone() },
            TwoAuthFunction::DeactivateForUserSpecificWhiteList { white_list } => {
                let copy = white_list.clone();
                assert(copy@ =~= white_list@);
                TwoAuthFunction::DeactivateForUserSpecificWhiteList { white_list: copy }
            },
        }
    }
}

/// Whether `duration` has fully passed between `reset_time` and `now`.
fn is_period_over(duration: Duration, reset_time: i64, now: i64) -> (over: bool)
    ensures
        over == period_over(duration, reset_time, now),
{
    let count = duration.get() as i128;
    let width = duration.seconds_per_bucket() as i128;
    assert(0 <= count * width <= 255 * 604800) by (nonlinear_arith)
        requires
            0 <= count <= 255,
            0 <= width <= 604800,
    ;
    now as i128 - reset_time as i128 >= count * width
}

impl TwoAuthFunction {
    /// Bytes that the serialised rule takes. The count has to fit in
    /// `usize`, which only a white list can put in question.
    pub fn get_init_len(&self) -> (len: usize)
        requires
            self@.init_len() <= usize::MAX,
        ensures
            len == self@.init_len(),
    {
        match self {
            TwoAuthFunction::Always => 1,
            TwoAuthFunction::OnMax { .. } => 1 + 8,
            TwoAuthFunction::Random => 1,
            TwoAuthFunction::CounterResetOnMax { .. } => 1 + 8 + 8,
            TwoAuthFunction::CounterResetOnTime { .. } => 1 + 8 + Duration::LEN + 8 + 8,
            TwoAuthFunction::CounterWithTimeWindow { window, .. } => 1 + 8 + window.get_init_len(),
            TwoAuthFunction::DeactivateForUserSpecificWhiteList { white_list } => 1 + 4 + 32
                * white_list.len(),
        }
    }

    /// Evaluates the rule for a transfer of `amount` to `destination` at
    /// `now`: returns the verdict and moves the rule's own state on, in one
    /// step.
    pub fn evaluate(&mut self, amount: u64, now: i64, destination: &Key) -> (required: bool)
        ensures
            required == old(self)@.requires_second_signer(amount, now, *destination),
            final(self)@ == old(self)@.after(amount, now),
            old(self)@.wf() && final(self)@.wf(),
    {
        match self {
            TwoAuthFunction::Always => true,
            TwoAuthFunction::OnMax { max } => amount >= *max,
            TwoAuthFunction::Random => true,
            TwoAuthFunction::CounterResetOnMax { max, counter } => {
                let total = counter.saturating_add(amount);
                let required = total >= *max;
                *counter = if required {
                    0
                } else {
                    total
                };
                required
            },
            TwoAuthFunction::CounterResetOnTime { max, duration, counter, reset_time } => {
                if is_period_over(*duration, *reset_time, now) {
                    *counter = 0;
                    *reset_time = now;
                }
                let total = counter.saturating_add(amount);
                let required = total >= *max;
                *counter = if required {
                    0
                } else {
                    total
                };
                required
            },
            TwoAuthFunction::CounterWithTimeWindow { max, window } => {
                let required = window.get_count().saturating_add(amount) >= *max;
                window.add(now, amount);
                required
            },
            TwoAuthFunction::DeactivateForUserSpecificWhiteList { white_list } => !contains_key(
                white_list,
                destination,
            ),
        }
    }
}

/// The verdict of `function` on a transfer of `amount` to `destination` at
/// `now`. The rule's state stays as it is.
pub fn match_functions(
    amount: u64,
    function: &TwoAuthFunction,
    now: i64,
    destination: &Key,
) -> (required: bool)
    ensures
        required == function@.requires_second_signer(amount, now, *destination),
        function@.wf(),
{
    match function {
        TwoAuthFunction::Always => true,
        TwoAuthFunction::OnMax { max } => amount >= *max,
        TwoAuthFunction::Random => true,
        TwoAuthFunction::CounterResetOnMax { max, counter } => counter.saturating_add(amount)
            >= *max,
        TwoAuthFunction::CounterResetOnTime { max, duration, counter, reset_time } => {
            let base: u64 = if is_period_over(*duration, *reset_time, now) {
                0
            } else {
                *counter
            };
            base.saturating_add(amount) >= *max
        },
        TwoAuthFunction::CounterWithTimeWindow { max, window } => window.get_count().saturating_add(
            amount,
        ) >= *max,
        TwoAuthFunction::DeactivateForUserSpecificWhiteList { white_list } => !contains_key(
            white_list,
            destination,
        ),
    }
}

/// The rules of `functions`, each as plain values.
pub open spec fn rule_states(functions: Seq<TwoAuthFunction>) -> Seq<RuleState> {
    Seq::new(functions.len(), |i: int| functions[i]@)
}

/// The combined decision: the second signer is required as soon as one rule
/// requires it.
pub open spec fn any_requires(
    rules: Seq<RuleState>,
    amount: u64,
    now: i64,
    destination: Key,
) -> bool {
    exists|i: int|
        0 <= i < rules.len() && (#[trigger] rules[i]).requires_second_signer(
            amount,
            now,
            destination,
        )
}

/// Every rule of `rules` after it was evaluated for a transfer of `amount`
/// at `now`.
pub open spec fn all_after(rules: Seq<RuleState>, amount: u64, now: i64) -> Seq<RuleState> {
    Seq::new(rules.len(), |i: int| rules[i].after(amount, now))
}

/// Returns true if there is need for two auth: at least one of `functions`
/// requires the second signer. The rules' state stays as it is.
pub fn apply_two_auth_functions(
    amount: u64,
    functions: &Vec<TwoAuthFunction>,
    now: i64,
    destination: &Key,
) -> (required: bool)
    ensures
        required == any_requires(rule_states(functions@), amount, now, *destination),
{
    let mut i: usize = 0;
    while i < functions.len()
        invariant
            i <= functions.len(),
            forall|j: int|
                0 <= j < i ==> !(#[trigger] rule_states(functions@)[j]).requires_second_signer(
                    amount,
                    now,
                    *destination,
                ),
        decreases functions.len() - i,
    {
        if match_functions(amount, &functions[i], now, destination) {
            assert(rule_states(functions@)[i as int] == functions@[i as int]@);
            return true;
        }
        i += 1;
    }
    return false;
}

/// Evaluates every rule of `functions` for a transfer of `amount` to
/// `destination` at `now`. Each rule's state moves on, whatever the other
/// rules say; the result is the combined decision.
pub fn evaluate_two_auth_functions(
    amount: u64,
    functions: &mut Vec<TwoAuthFunction>,
    now: i64,
    destination: &Key,
) -> (required: bool)
    ensures
        required == any_requires(rule_states(old(functions)@), amount, now, *destination),
        rule_states(final(functions)@) == all_after(rule_states(old(functions)@), amount, now),
{
    let ghost before = rule_states(functions@);
    let mut required = false;
    let mut i: usize = 0;
    while i < functions.len()
        invariant
            i <= functions.len(),
            functions.len() == before.len(),
            forall|j: int|
                0 <= j < i ==> functions@[j]@ == (#[trigger] before[j]).after(amount, now),
            forall|j: int| i <= j < before.len() ==> functions@[j]@ == #[trigger] before[j],
            required == exists|j: int|
                0 <= j < i && (#[trigger] before[j]).requires_second_signer(
                    amount,
                    now,
                    *destination,
                ),
        decreases functions.len() - i,
    {
        let verdict = functions[i].evaluate(amount, now, destination);
        proof {
            let seen = |upto: int|
                exists|j: int|
                    0 <= j < upto && (#[trigger] before[j]).requires_second_signer(
                        amount,
                        now,
                        *destination,
                    );
            if verdict {
                assert(before[i as int].requires_second_signer(amount, now, *destination));
            }
            if seen(i + 1) && !seen(i as int) {
                let j = choose|j: int|
                    0 <= j < i + 1 && (#[trigger] before[j]).requires_second_signer(
                        amount,
                        now,
                        *destination,
                    );
                assert(j == i);
            }
        }
        required = required || verdict;
        i += 1;
    }
    assert(rule_states(functions@) =~= all_after(before, amount, now));
    required
}

/// Composition only tightens: with one more rule, at any place among the
/// others, the second signer is required exactly when it was required
/// before or the new rule requires it. A rule that requires the signer thus
/// turns a decision that let the transfer pass into one that does not; no
/// rule turns a decision the other way.
pub proof fn lemma_added_rule_only_tightens(
    rules: Seq<RuleState>,
    rule: RuleState,
    place: int,
    amount: u64,
    now: i64,
    destination: Key,
)
    requires
        0 <= place <= rules.len(),
    ensures
        any_requires(rules.insert(place, rule), amount, now, destination) == (any_requires(
            rules,
            amount,
            now,
            destination,
        ) || rule.requires_second_signer(amount, now, destination)),
{
    let more = rules.insert(place, rule);
    if any_requires(rules, amount, now, destination) {
        let i = choose|i: int|
            0 <= i < rules.len() && (#[trigger] rules[i]).requires_second_signer(
                amount,
                now,
                destination,
            );
        if i < place {
            assert(more[i] == rules[i]);
        } else {
            assert(more[i + 1] == rules[i]);
        }
    }
    if rule.requires_second_signer(amount, now, destination) {
        assert(more[place] == rule);
    }
    if any_requires(more, amount, now, destination) {
        let i = choose|i: int|
            0 <= i < more.len() && (#[trigger] more[i]).requires_second_signer(
                amount,
                now,
                destination,
            );
        if i < place {
            assert(more[i] == rules[i]);
        } else if i > place {
            assert(more[i] == rules[i - 1]);
        }
    }
}

/// What a two-auth configuration holds, as plain values.
pub struct PolicyState {
    pub functions: Seq<RuleState>,
    pub two_auth_entity: Key,
    pub allowed_issuers: Seq<Key>,
}

/// The two-auth configuration of one wrapped token account.
#[derive(Debug)]
pub struct TwoAuthParameters {
    /// The rules, all of which are consulted on a transfer.
    pub functions: Vec<TwoAuthFunction>,
    /// The signer whose co-signature the rules can ask for. Also called
    /// insurance.
    pub two_auth_entity: Key,
    pub allowed_issuers: Vec<Key>,
}

impl View for TwoAuthParameters {
    type V = PolicyState;

    open spec fn view(&self) -> PolicyState {
        PolicyState {
            functions: rule_states(self.functions@),
            two_auth_entity: self.two_auth_entity,
            allowed_issuers: self.allowed_issuers@,
        }
    }
}

impl Clone for TwoAuthParameters {
    fn clone(&self) -> (copy: Self)
        ensures
            copy@ == self@,
    {
        let mut functions: Vec<TwoAuthFunction> = Vec::new();
        let mut i: usize = 0;
        while i < self.functions.len()
            invariant
                i <= self.functions.len(),
                functions.len() == i,
                forall|j: int| 0 <= j < i ==> functions@[j]@ == self.functions@[j]@,
            decreases self.functions.len() - i,
        {
            functions.push(self.functions[i].clone());
            i += 1;
        }
        let allowed_issuers = self.allowed_issuers.clone();
        assert(allowed_issuers@ =~= self.allowed_issuers@);
        assert(rule_states(functions@) =~= rule_states(self.functions@));
        TwoAuthParameters { functions, two_auth_entity: self.two_auth_entity, allowed_issuers }
    }
}

impl TwoAuthParameters {
    /// Bytes that a serialised configuration with these rules and issuers
    /// takes: eleven for each rule, thirty-two for each issuer, and the
    /// fixed part. The count has to fit in `usize`.
    pub fn get_init_len(
        functions: &Vec<TwoAuthFunction>,
        allowed_issuers: &Vec<Key>,
    ) -> (len: usize)
        requires
            8 + 4 + 11 * functions.len() + 32 + 4 + 32 * allowed_issuers.len() <= usize::MAX,
        ensures
            len == 8 + 4 + 11 * functions.len() + 32 + 4 + 32 * allowed_issuers.len(),
    {
        return 8 + 4 + 11 * functions.len() + 32 + 4 + 32 * allowed_issuers.len();
    }
}

/// Whether a transfer is held back for want of the second signer: there is
/// a configuration, one of its rules requires the second signer, and
/// `signer` is absent or is not the configuration's two-auth entity.
pub open spec fn second_signer_missing(
    policy: Option<PolicyState>,
    amount: u64,
    now: i64,
    destination: Key,
    signer: Option<Key>,
) -> bool {
    &&& policy matches Some(parameters)
    &&& any_requires(parameters.functions, amount, now, destination)
    &&& signer != Some(parameters.two_auth_entity)
}

/// The view of a configuration that may be absent.
pub open spec fn policy_state(two_auth: Option<TwoAuthParameters>) -> Option<PolicyState> {
    match two_auth {
        Some(parameters) => Some(parameters@),
        None => None,
    }
}

/// Decides for the whole configuration whether a transfer of `amount` to
/// `destination` at `now` may go on with the signer it has. Fails with
/// `SecondaryAuthorizationRequired` where a rule requires the second signer
/// and `two_auth_signer` is not the two-auth entity. The rules' state stays
/// as it is.
pub fn check_second_signer(
    two_auth: &Option<TwoAuthParameters>,
    two_auth_signer: &Option<Key>,
    amount: u64,
    now: i64,
    destination: &Key,
) -> (result: Result<(), TwoAuthError>)
    ensures
        result == if second_signer_missing(
            policy_state(*two_auth),
            amount,
            now,
            *destination,
            *two_auth_signer,
        ) {
            Err(TwoAuthError::SecondaryAuthorizationRequired)
        } else {
            Ok::<(), TwoAuthError>(())
        },
{
    if let Some(parameters) = two_auth {
        if apply_two_auth_functions(amount, &parameters.functions, now, destination) {
            let signed = match two_auth_signer {
                Some(signer) => *signer == parameters.two_auth_entity,
                None => false,
            };
            if !signed {
                return Err(TwoAuthError::SecondaryAuthorizationRequired);
            }
        }
    }
    Ok(())
}

} // verus!
