//! The subscription engine: creating and renewing subscriptions, lazy expiry,
//! and attendance against a budget of remaining classes.
use vstd::prelude::*;

use crate::clients::Client;
use crate::error::{InvalidReason, Reference, ValidationError};
use crate::filter::{
    at_eq, at_from, at_to, check_at_eq, check_at_from, check_at_to, check_flag_eq, check_int_eq,
    check_opt_at_eq, check_opt_at_from, check_opt_at_to, flag_eq, int_eq, lemma_filter_prefix_empty,
    lemma_filter_prefix_step, opt_at_eq, opt_at_from, opt_at_to,
};
use crate::membership::Membership;
use crate::time::{add_days, day_of, plus_days, plus_days_fits, same_day};

verus! {

/// A client's subscription to one discipline. At most one exists per
/// (client, discipline) pair: lookups are keyed by that pair.
#[derive(Clone, Copy, Debug, PartialEq, Eq, Structural)]
pub struct Subscription {
    pub id: i32,
    pub client_id: i32,
    pub discipline_id: i32,
    pub remaining_classes: i32,
    pub expires_at: i64,
    pub active: bool,
    pub created_at: i64,
    pub updated_at: i64,
    pub deleted_at: Option<i64>,
}

/// One attended class, credited against a subscription.
#[derive(Clone, Copy, Debug, PartialEq, Eq, Structural)]
pub struct ClassAttendance {
    pub id: i32,
    pub subscription_id: i32,
    pub attended_at: i64,
}

/// A request to record attendance against a subscription.
#[derive(Clone, Copy, Debug, PartialEq, Eq, Structural)]
pub struct ClassAttendanceRequest {
    pub subscription_id: i32,
}

/// A request to subscribe a client with a membership plan.
#[derive(Clone, Copy, Debug, PartialEq, Eq, Structural)]
pub struct NewSubscriptionRequest {
    pub client_id: i32,
    pub membership_id: i32,
}

/// A subscription to be stored for the first time; the store assigns its id
/// and timestamps.
#[derive(Clone, Copy, Debug, PartialEq, Eq, Structural)]
pub struct NewSubscription {
    pub client_id: i32,
    pub discipline_id: i32,
    pub remaining_classes: i32,
    pub expires_at: i64,
    pub active: bool,
}

/// What a subscribe request does to the store.
#[derive(Clone, Copy, Debug, PartialEq, Eq, Structural)]
pub enum SubscriptionChange {
    /// Insert a new subscription.
    Created(NewSubscription),
    /// Overwrite the existing subscription with this row.
    Renewed(Subscription),
}

/// What an attendance request does to the store.
#[derive(Clone, Copy, Debug, PartialEq, Eq, Structural)]
pub enum AttendanceDecision {
    /// Insert an attendance record dated now and overwrite the subscription with this row.
    Record(Subscription),
    /// Overwrite the subscription with this expired row, then fail with
    /// `SubscriptionInvalid` for the reason given.
    Expire(Subscription, InvalidReason),
    /// Fail with this error and change nothing.
    Reject(ValidationError),
}

/// Whether `s` can be used for attendance at `now`, and if not, why.
pub open spec fn liveness(s: Subscription, now: int) -> Result<(), InvalidReason> {
    if !s.active {
        Err(InvalidReason::NotActive)
    } else if s.remaining_classes <= 0 {
        Err(InvalidReason::NoRemainingClasses)
    } else if (s.expires_at as int) < now {
        Err(InvalidReason::Expired)
    } else {
        Ok(())
    }
}

/// `s` after it was expired at `now`.
pub open spec fn expired_at(s: Subscription, now: i64) -> Subscription {
    Subscription { active: false, remaining_classes: 0, expires_at: now, deleted_at: Some(now), ..s }
}

/// `s` after it was soft-deleted at `now`.
pub open spec fn deleted_at(s: Subscription, now: i64) -> Subscription {
    Subscription { active: false, remaining_classes: 0, deleted_at: Some(now), ..s }
}

/// Whether `log` holds an attendance for subscription `id` on the calendar day of `now`.
pub open spec fn attended_on_day(log: Seq<ClassAttendance>, id: i32, now: int) -> bool {
    exists|i: int|
        0 <= i < log.len() && #[trigger] log[i].subscription_id == id && day_of(
            log[i].attended_at as int,
        ) == day_of(now)
}

/// The outcome of an attendance request for the subscription `found` (the row
/// with the requested id, if any), given the attendance log, at `now`.
pub open spec fn attendance_outcome(
    found: Option<Subscription>,
    log: Seq<ClassAttendance>,
    now: i64,
) -> AttendanceDecision {
    match found {
        None => AttendanceDecision::Reject(ValidationError::NotFound),
        Some(s) => match liveness(s, now as int) {
            Err(reason) => AttendanceDecision::Expire(expired_at(s, now), reason),
            Ok(_) => if attended_on_day(log, s.id, now as int) {
                AttendanceDecision::Reject(ValidationError::DuplicateAttendance)
            } else {
                AttendanceDecision::Record(
                    Subscription {
                        remaining_classes: (s.remaining_classes - 1) as i32,
                        updated_at: now,
                        active: true,
                        deleted_at: None,
                        ..s
                    },
                )
            },
        },
    }
}

/// Whether `s` belongs to the (client, discipline) pair.
pub open spec fn is_pair(s: Subscription, client_id: i32, discipline_id: i32) -> bool {
    s.client_id == client_id && s.discipline_id == discipline_id
}

/// The first subscription in `subs` of the (client, discipline) pair.
pub open spec fn find_pair(subs: Seq<Subscription>, client_id: i32, discipline_id: i32) -> Option<
    Subscription,
>
    decreases subs.len(),
{
    if subs.len() == 0 {
        None
    } else if is_pair(subs[0], client_id, discipline_id) {
        Some(subs[0])
    } else {
        find_pair(subs.drop_first(), client_id, discipline_id)
    }
}

/// Whether the request refers to an active client and an active membership plan.
pub open spec fn reference_check(
    req: NewSubscriptionRequest,
    client: Option<Client>,
    membership: Option<Membership>,
) -> Result<(), ValidationError> {
    if !(client is Some && client->Some_0.id == req.client_id && client->Some_0.active) {
        Err(ValidationError::InvalidReference(Reference::Client))
    } else if !(membership is Some && membership->Some_0.id == req.membership_id
        && membership->Some_0.active) {
        Err(ValidationError::InvalidReference(Reference::Membership))
    } else {
        Ok(())
    }
}

/// `s` renewed with plan `m` at `now`: the plan's classes are added to what
/// remains, and the validity restarts from now.
pub open spec fn renewed(s: Subscription, m: Membership, now: i64) -> Subscription {
    Subscription {
        remaining_classes: (s.remaining_classes + m.total_classes) as i32,
        expires_at: plus_days(now as int, m.duration_days as int) as i64,
        updated_at: now,
        active: true,
        deleted_at: None,
        ..s
    }
}

/// The subscription created by a first purchase of plan `m` by client `client_id` at `now`.
pub open spec fn created(client_id: i32, m: Membership, now: i64) -> NewSubscription {
    NewSubscription {
        client_id,
        discipline_id: m.discipline_id,
        remaining_classes: m.total_classes,
        expires_at: plus_days(now as int, m.duration_days as int) as i64,
        active: true,
    }
}

/// Whether the sum of two class counts is a representable count.
pub open spec fn classes_fit(a: i32, b: i32) -> bool {
    i32::MIN <= a + b <= i32::MAX
}

/// The outcome of a subscribe request, given the client and the plan that the
/// request refers to (if they exist) and the client's subscriptions, at `now`.
pub open spec fn subscribe_outcome(
    req: NewSubscriptionRequest,
    client: Option<Client>,
    membership: Option<Membership>,
    subs: Seq<Subscription>,
    now: i64,
) -> Result<SubscriptionChange, ValidationError> {
    match reference_check(req, client, membership) {
        Err(e) => Err(e),
        Ok(_) => {
            let m = membership->Some_0;
            if !plus_days_fits(now as int, m.duration_days as int) {
                Err(ValidationError::OutOfRange)
            } else {
                match find_pair(subs, req.client_id, m.discipline_id) {
                    None => Ok(SubscriptionChange::Created(created(req.client_id, m, now))),
                    Some(s) => if classes_fit(s.remaining_classes, m.total_classes) {
                        Ok(SubscriptionChange::Renewed(renewed(s, m, now)))
                    } else {
                        Err(ValidationError::OutOfRange)
                    },
                }
            }
        },
    }
}

impl Subscription {
    /// Whether the subscription can be used for attendance at `now`: it must
    /// be active, have classes left, and not be past its expiry.
    pub fn validate_if_active(&self, now: i64) -> (r: Result<(), InvalidReason>)
        ensures
            r == liveness(*self, now as int),
    {
        if !self.active {
            Err(InvalidReason::NotActive)
        } else if self.remaining_classes <= 0 {
            Err(InvalidReason::NoRemainingClasses)
        } else if self.expires_at < now {
            Err(InvalidReason::Expired)
        } else {
            Ok(())
        }
    }

    /// The subscription expired at `now`: inactive, with no classes left, its
    /// expiry and deletion stamped with `now`.
    pub fn expire_subscription(&self, now: i64) -> (r: Subscription)
        ensures
            r == expired_at(*self, now),
    {
        Subscription { active: false, remaining_classes: 0, expires_at: now, deleted_at: Some(now), ..*self }
    }

    /// The subscription soft-deleted at `now`.
    pub fn delete(&self, now: i64) -> (r: Subscription)
        ensures
            r == deleted_at(*self, now),
    {
        Subscription { active: false, remaining_classes: 0, deleted_at: Some(now), ..*self }
    }

    /// Whether `log` already holds an attendance for this subscription on the
    /// calendar day of `now`.
    pub fn has_attendance_today(&self, log: &Vec<ClassAttendance>, now: i64) -> (r: bool)
        ensures
            r == attended_on_day(log@, self.id, now as int),
    {
        let mut i: usize = 0;
        while i < log.len()
            invariant
                0 <= i <= log.len(),
                forall|j: int|
                    0 <= j < i ==> !(#[trigger] log@[j].subscription_id == self.id && day_of(
                        log@[j].attended_at as int,
                    ) == day_of(now as int)),
            decreases log.len() - i,
        {
            let a = log[i];
            if a.subscription_id == self.id && same_day(a.attended_at, now) {
                assert(log@[i as int].subscription_id == self.id);
                return true;
            }
            i += 1;
        }
        false
    }
}

impl NewSubscriptionRequest {
    /// Checks that `client` is the active client and `membership` the active
    /// plan that the request names.
    pub fn validate(&self, client: &Option<Client>, membership: &Option<Membership>) -> (r: Result<
        (),
        ValidationError,
    >)
        ensures
            r == reference_check(*self, *client, *membership),
    {
        let client_ok = match client {
            Some(c) => c.id == self.client_id && c.active,
            None => false,
        };
        if !client_ok {
            return Err(ValidationError::InvalidReference(Reference::Client));
        }
        let membership_ok = match membership {
            Some(m) => m.id == self.membership_id && m.active,
            None => false,
        };
        if !membership_ok {
            return Err(ValidationError::InvalidReference(Reference::Membership));
        }
        Ok(())
    }
}

impl ClassAttendanceRequest {
    /// Checks an attendance request against `found`, the subscription with the
    /// requested id if there is one: it must exist, be usable at `now`, and
    /// have no attendance today in `log`. Returns the subscription.
    pub fn validate(&self, found: &Option<Subscription>, log: &Vec<ClassAttendance>, now: i64) -> (r:
        Result<Subscription, ValidationError>)
        ensures
            match attendance_outcome(*found, log@, now) {
                AttendanceDecision::Record(_) => r == Ok::<Subscription, ValidationError>(
                    found->Some_0,
                ),
                AttendanceDecision::Expire(_, reason) => r == Err::<Subscription, ValidationError>(
                    ValidationError::SubscriptionInvalid(reason),
                ),
                AttendanceDecision::Reject(e) => r == Err::<Subscription, ValidationError>(e),
            },
    {
        match found {
            None => Err(ValidationError::NotFound),
            Some(s) => {
                match s.validate_if_active(now) {
                    Err(reason) => Err(ValidationError::SubscriptionInvalid(reason)),
                    Ok(_) => {
                        if s.has_attendance_today(log, now) {
                            Err(ValidationError::DuplicateAttendance)
                        } else {
                            Ok(*s)
                        }
                    },
                }
            },
        }
    }
}

/// The first subscription in `subs` that belongs to the (client, discipline) pair.
pub fn find_subscription(subs: &Vec<Subscription>, client_id: i32, discipline_id: i32) -> (r: Option<
    Subscription,
>)
    ensures
        r == find_pair(subs@, client_id, discipline_id),
{
    let mut i: usize = 0;
    assert(subs@.subrange(0, subs@.len() as int) =~= subs@);
    while i < subs.len()
        invariant
            0 <= i <= subs.len(),
            find_pair(subs@, client_id, discipline_id) == find_pair(
                subs@.subrange(i as int, subs@.len() as int),
                client_id,
                discipline_id,
            ),
        decreases subs.len() - i,
    {
        let s = subs[i];
        let ghost rest = subs@.subrange(i as int, subs@.len() as int);
        assert(rest.drop_first() =~= subs@.subrange(i + 1, subs@.len() as int));
        assert(rest[0] == s);
        if s.client_id == client_id && s.discipline_id == discipline_id {
            return Some(s);
        }
        i += 1;
    }
    None
}

/// Subscribe: given the client and the plan that the request names (if they
/// exist) and the client's subscriptions, decide at `now` whether to create a
/// subscription for the plan's discipline or renew the existing one.
///
/// A new subscription gets the plan's class quota and expires the plan's
/// duration after now. A renewal adds the quota to what remains and restarts
/// the validity from now, whether or not the old subscription was still live.
/// Both cases are stated on their own below the exact outcome: a client with no
/// subscription in the plan's discipline gets a created one, and a client with
/// one (the only one of that pair) gets it renewed.
pub fn new_subscription(
    req: &NewSubscriptionRequest,
    client: &Option<Client>,
    membership: &Option<Membership>,
    subs: &Vec<Subscription>,
    now: i64,
) -> (r: Result<SubscriptionChange, ValidationError>)
    ensures
        r == subscribe_outcome(*req, *client, *membership, subs@, now),
        reference_check(*req, *client, *membership) is Ok && (forall|i: int|
            0 <= i < subs@.len() ==> !is_pair(
                #[trigger] subs@[i],
                req.client_id,
                membership->Some_0.discipline_id,
            )) && plus_days_fits(now as int, membership->Some_0.duration_days as int) ==> r == Ok::<
            SubscriptionChange,
            ValidationError,
        >(SubscriptionChange::Created(created(req.client_id, membership->Some_0, now))),
        forall|k: int|
            reference_check(*req, *client, *membership) is Ok && 0 <= k < subs@.len() && is_pair(
                #[trigger] subs@[k],
                req.client_id,
                membership->Some_0.discipline_id,
            ) && (forall|i: int|
                0 <= i < subs@.len() && is_pair(
                    #[trigger] subs@[i],
                    req.client_id,
                    membership->Some_0.discipline_id,
                ) ==> subs@[i] == subs@[k]) && plus_days_fits(
                now as int,
                membership->Some_0.duration_days as int,
            ) && classes_fit(subs@[k].remaining_classes, membership->Some_0.total_classes) ==> r
                == Ok::<SubscriptionChange, ValidationError>(
                SubscriptionChange::Renewed(renewed(subs@[k], membership->Some_0, now)),
            ),
{
    proof {
        if membership is Some {
            let m = membership->Some_0;
            if forall|i: int|
                0 <= i < subs@.len() ==> !is_pair(#[trigger] subs@[i], req.client_id, m.discipline_id) {
                lemma_find_pair_none(subs@, req.client_id, m.discipline_id);
            }
            assert forall|k: int|
                0 <= k < subs@.len() && is_pair(#[trigger] subs@[k], req.client_id, m.discipline_id)
                    && (forall|i: int|
                    0 <= i < subs@.len() && is_pair(#[trigger] subs@[i], req.client_id, m.discipline_id)
                        ==> subs@[i] == subs@[k]) implies find_pair(
                subs@,
                req.client_id,
                m.discipline_id,
            ) == Some(subs@[k]) by {
                lemma_find_pair_only(subs@, req.client_id, m.discipline_id, k);
            }
        }
    }
    match req.validate(client, membership) {
        Err(e) => Err(e),
        Ok(_) => {
            let m = match membership {
                Some(m) => m,
                None => {
                    return Err(ValidationError::InvalidReference(Reference::Membership));
                },
            };
            let end = (now as i128) + (m.duration_days as i128) * 86400;
            if end < i64::MIN as i128 || end > i64::MAX as i128 {
                return Err(ValidationError::OutOfRange);
            }
            let expires_at = add_days(now, m.duration_days);
            match find_subscription(subs, req.client_id, m.discipline_id) {
                None => Ok(
                    SubscriptionChange::Created(
                        NewSubscription {
                            client_id: req.client_id,
                            discipline_id: m.discipline_id,
                            remaining_classes: m.total_classes,
                            expires_at,
                            active: true,
                        },
                    ),
                ),
                Some(s) => {
                    let total = (s.remaining_classes as i64) + (m.total_classes as i64);
                    if total < i32::MIN as i64 || total > i32::MAX as i64 {
                        return Err(ValidationError::OutOfRange);
                    }
                    Ok(
                        SubscriptionChange::Renewed(
                            Subscription {
                                remaining_classes: total as i32,
                                expires_at,
                                updated_at: now,
                                active: true,
                                deleted_at: None,
                                ..s
                            },
                        ),
                    )
                },
            }
        },
    }
}

/// RecordAttendance: given `found`, the subscription with the requested id if
/// there is one, and the attendance log, decide at `now` what to do.
///
/// A subscription that is inactive, exhausted or expired is expired in the
/// store and the request fails; a second attendance on one calendar day is
/// refused; otherwise one class is taken from the remaining ones.
pub fn class_attendance(
    req: &ClassAttendanceRequest,
    found: &Option<Subscription>,
    log: &Vec<ClassAttendance>,
    now: i64,
) -> (r: AttendanceDecision)
    ensures
        r == attendance_outcome(*found, log@, now),
{
    match req.validate(found, log, now) {
        Ok(s) => AttendanceDecision::Record(
            Subscription {
                remaining_classes: s.remaining_classes - 1,
                updated_at: now,
                active: true,
                deleted_at: None,
                ..s
            },
        ),
        Err(ValidationError::SubscriptionInvalid(reason)) => {
            let s = match found {
                Some(s) => s,
                None => {
                    return AttendanceDecision::Reject(ValidationError::NotFound);
                },
            };
            AttendanceDecision::Expire(s.expire_subscription(now), reason)
        },
        Err(e) => AttendanceDecision::Reject(e),
    }
}


/// The parameters of a filtered listing of subscriptions. Every present
/// parameter must hold; `_from` and `_to` bound a column from below and above.
#[derive(Clone, Copy, Debug, PartialEq, Eq, Structural)]
pub struct SubscriptionQueryParams {
    pub client_id: Option<i32>,
    pub discipline_id: Option<i32>,
    pub active: Option<bool>,
    pub expires_at: Option<i64>,
    pub created_at: Option<i64>,
    pub updated_at: Option<i64>,
    pub deleted_at: Option<i64>,
    pub created_at_from: Option<i64>,
    pub created_at_to: Option<i64>,
    pub updated_at_from: Option<i64>,
    pub updated_at_to: Option<i64>,
    pub deleted_at_from: Option<i64>,
    pub deleted_at_to: Option<i64>,
    pub expires_at_from: Option<i64>,
    pub expires_at_to: Option<i64>,
}

/// Whether `s` satisfies every present parameter of `p`.
pub open spec fn subscription_matches(p: SubscriptionQueryParams, s: Subscription) -> bool {
    &&& int_eq(p.client_id, s.client_id)
    &&& int_eq(p.discipline_id, s.discipline_id)
    &&& flag_eq(p.active, s.active)
    &&& at_eq(p.expires_at, s.expires_at)
    &&& at_eq(p.created_at, s.created_at)
    &&& at_eq(p.updated_at, s.updated_at)
    &&& opt_at_eq(p.deleted_at, s.deleted_at)
    &&& at_from(p.created_at_from, s.created_at)
    &&& at_to(p.created_at_to, s.created_at)
    &&& at_from(p.updated_at_from, s.updated_at)
    &&& at_to(p.updated_at_to, s.updated_at)
    &&& opt_at_from(p.deleted_at_from, s.deleted_at)
    &&& opt_at_to(p.deleted_at_to, s.deleted_at)
    &&& at_from(p.expires_at_from, s.expires_at)
    &&& at_to(p.expires_at_to, s.expires_at)
}

/// The subscriptions of `subs` that satisfy `p`, in their order.
pub open spec fn matching_subscriptions(p: SubscriptionQueryParams, subs: Seq<Subscription>) -> Seq<
    Subscription,
> {
    subs.filter(|s: Subscription| subscription_matches(p, s))
}

impl SubscriptionQueryParams {
    /// Whether `s` satisfies every present parameter.
    pub fn matches(&self, s: &Subscription) -> (r: bool)
        ensures
            r == subscription_matches(*self, *s),
    {
        check_int_eq(self.client_id, s.client_id) && check_int_eq(self.discipline_id, s.discipline_id)
            && check_flag_eq(self.active, s.active) && check_at_eq(self.expires_at, s.expires_at)
            && check_at_eq(self.created_at, s.created_at) && check_at_eq(
            self.updated_at,
            s.updated_at,
        ) && check_opt_at_eq(self.deleted_at, s.deleted_at) && check_at_from(
            self.created_at_from,
            s.created_at,
        ) && check_at_to(self.created_at_to, s.created_at) && check_at_from(
            self.updated_at_from,
            s.updated_at,
        ) && check_at_to(self.updated_at_to, s.updated_at) && check_opt_at_from(
            self.deleted_at_from,
            s.deleted_at,
        ) && check_opt_at_to(self.deleted_at_to, s.deleted_at) && check_at_from(
            self.expires_at_from,
            s.expires_at,
        ) && check_at_to(self.expires_at_to, s.expires_at)
    }
}

/// The filtered listing: the subscriptions of `subs` that satisfy every
/// present parameter of `params`, in their order. With no parameter present,
/// all of them.
pub fn filter_subscriptions(params: &SubscriptionQueryParams, subs: &Vec<Subscription>) -> (r: Vec<
    Subscription,
>)
    ensures
        r@ == matching_subscriptions(*params, subs@),
{
    let ghost f = |s: Subscription| subscription_matches(*params, s);
    let mut out: Vec<Subscription> = Vec::new();
    let mut i: usize = 0;
    proof {
        lemma_filter_prefix_empty(subs@, f);
    }
    while i < subs.len()
        invariant
            0 <= i <= subs.len(),
            out@ == subs@.subrange(0, i as int).filter(f),
            f == (|s: Subscription| subscription_matches(*params, s)),
        decreases subs.len() - i,
    {
        proof {
            lemma_filter_prefix_step(subs@, f, i as int);
        }
        let s = subs[i];
        let keep = params.matches(&s);
        assert(keep == f(subs@[i as int]));
        if keep {
            out.push(s);
        }
        i += 1;
    }
    assert(subs@.subrange(0, subs@.len() as int) =~= subs@);
    out
}

/// Soft-deletes every subscription of `subs` that belongs to client
/// `client_id`, at `now`; the others are kept as they are.
pub fn delete_client_subscriptions(subs: &Vec<Subscription>, client_id: i32, now: i64) -> (r: Vec<
    Subscription,
>)
    ensures
        r@.len() == subs@.len(),
        forall|i: int|
            0 <= i < subs@.len() ==> #[trigger] r@[i] == (if subs@[i].client_id == client_id {
                deleted_at(subs@[i], now)
            } else {
                subs@[i]
            }),
{
    let mut out: Vec<Subscription> = Vec::new();
    let mut i: usize = 0;
    while i < subs.len()
        invariant
            0 <= i <= subs.len(),
            out@.len() == i,
            forall|j: int|
                0 <= j < i ==> #[trigger] out@[j] == (if subs@[j].client_id == client_id {
                    deleted_at(subs@[j], now)
                } else {
                    subs@[j]
                }),
        decreases subs.len() - i,
    {
        let s = subs[i];
        if s.client_id == client_id {
            out.push(s.delete(now));
        } else {
            out.push(s);
        }
        i += 1;
    }
    out
}

proof fn lemma_find_pair_none(subs: Seq<Subscription>, client_id: i32, discipline_id: i32)
    requires
        forall|i: int| 0 <= i < subs.len() ==> !is_pair(#[trigger] subs[i], client_id, discipline_id),
    ensures
        find_pair(subs, client_id, discipline_id) is None,
    decreases subs.len(),
{
    if subs.len() > 0 {
        assert(!is_pair(subs[0], client_id, discipline_id));
        assert forall|i: int| 0 <= i < subs.drop_first().len() implies !is_pair(
            #[trigger] subs.drop_first()[i],
            client_id,
            discipline_id,
        ) by {
            assert(subs.drop_first()[i] == subs[i + 1]);
        }
        lemma_find_pair_none(subs.drop_first(), client_id, discipline_id);
    }
}

proof fn lemma_find_pair_only(subs: Seq<Subscription>, client_id: i32, discipline_id: i32, k: int)
    requires
        0 <= k < subs.len(),
        is_pair(subs[k], client_id, discipline_id),
        forall|i: int|
            0 <= i < subs.len() && is_pair(#[trigger] subs[i], client_id, discipline_id) ==> subs[i]
                == subs[k],
    ensures
        find_pair(subs, client_id, discipline_id) == Some(subs[k]),
    decreases subs.len(),
{
    if !is_pair(subs[0], client_id, discipline_id) {
        let rest = subs.drop_first();
        assert(rest[k - 1] == subs[k]);
        assert forall|i: int|
            0 <= i < rest.len() && is_pair(#[trigger] rest[i], client_id, discipline_id) implies rest[i]
                == rest[k - 1] by {
            assert(rest[i] == subs[i + 1]);
        }
        lemma_find_pair_only(rest, client_id, discipline_id, k - 1);
    }
}

/// A first purchase: when an active client buys an active plan of a discipline
/// in which the client holds no subscription, Subscribe creates an active
/// subscription with the plan's full class quota that expires the plan's
/// duration after now.
pub proof fn lemma_first_subscription(
    req: NewSubscriptionRequest,
    client: Client,
    membership: Membership,
    subs: Seq<Subscription>,
    now: i64,
)
    requires
        client.id == req.client_id && client.active,
        membership.id == req.membership_id && membership.active,
        forall|i: int|
            0 <= i < subs.len() ==> !is_pair(#[trigger] subs[i], req.client_id, membership.discipline_id),
        plus_days_fits(now as int, membership.duration_days as int),
    ensures
        ({
            let r = subscribe_outcome(req, Some(client), Some(membership), subs, now);
            &&& r is Ok && r->Ok_0 is Created
            &&& r->Ok_0->Created_0.client_id == req.client_id
            &&& r->Ok_0->Created_0.discipline_id == membership.discipline_id
            &&& r->Ok_0->Created_0.remaining_classes == membership.total_classes
            &&& r->Ok_0->Created_0.expires_at == plus_days(now as int, membership.duration_days as int)
            &&& r->Ok_0->Created_0.active
        }),
{
    lemma_find_pair_none(subs, req.client_id, membership.discipline_id);
}

/// A repeat purchase: when the client already holds the subscription `s` in the
/// plan's discipline, Subscribe renews that subscription, adding exactly the
/// plan's class quota and resetting its expiry to the plan's duration after now
/// (not after the old expiry).
pub proof fn lemma_renewal(
    req: NewSubscriptionRequest,
    client: Client,
    membership: Membership,
    subs: Seq<Subscription>,
    k: int,
    now: i64,
)
    requires
        client.id == req.client_id && client.active,
        membership.id == req.membership_id && membership.active,
        0 <= k < subs.len(),
        is_pair(subs[k], req.client_id, membership.discipline_id),
        forall|i: int|
            0 <= i < subs.len() && is_pair(#[trigger] subs[i], req.client_id, membership.discipline_id)
                ==> subs[i] == subs[k],
        plus_days_fits(now as int, membership.duration_days as int),
        classes_fit(subs[k].remaining_classes, membership.total_classes),
    ensures
        ({
            let r = subscribe_outcome(req, Some(client), Some(membership), subs, now);
            &&& r is Ok && r->Ok_0 is Renewed
            &&& r->Ok_0->Renewed_0.id == subs[k].id
            &&& r->Ok_0->Renewed_0.remaining_classes == subs[k].remaining_classes
                + membership.total_classes
            &&& r->Ok_0->Renewed_0.expires_at == plus_days(now as int, membership.duration_days as int)
        }),
{
    lemma_find_pair_only(subs, req.client_id, membership.discipline_id, k);
}

/// RecordAttendance on a subscription with no classes left always fails with
/// `SubscriptionInvalid` and leaves the subscription expired: inactive, with
/// no classes, deleted at now.
pub proof fn lemma_exhausted_subscription_expires(
    s: Subscription,
    log: Seq<ClassAttendance>,
    now: i64,
)
    requires
        s.remaining_classes == 0,
    ensures
        ({
            let d = attendance_outcome(Some(s), log, now);
            &&& d is Expire
            &&& !d->Expire_0.active
            &&& d->Expire_0.remaining_classes == 0
            &&& d->Expire_0.deleted_at == Some(now)
            &&& d->Expire_0.id == s.id
        }),
{
}

/// Two attendances on one calendar day: the first is recorded and takes one
/// class; the second, with the first in the log, fails with
/// `DuplicateAttendance` and changes nothing. This holds where the second call
/// still finds the subscription live: it had two classes or more, and `later`
/// is not past its expiry.
pub proof fn lemma_one_attendance_per_day(
    s: Subscription,
    log: Seq<ClassAttendance>,
    now: i64,
    later: i64,
    record_id: i32,
)
    requires
        liveness(s, now as int) is Ok,
        !attended_on_day(log, s.id, now as int),
        s.remaining_classes >= 2,
        later as int <= s.expires_at as int,
        day_of(now as int) == day_of(later as int),
    ensures
        ({
            let first = attendance_outcome(Some(s), log, now);
            let after = first->Record_0;
            let log2 = log.push(ClassAttendance { id: record_id, subscription_id: s.id, attended_at: now });
            &&& first is Record
            &&& after.id == s.id
            &&& after.remaining_classes == s.remaining_classes - 1
            &&& attendance_outcome(Some(after), log2, later) == AttendanceDecision::Reject(
                ValidationError::DuplicateAttendance,
            )
        }),
{
    let after = attendance_outcome(Some(s), log, now)->Record_0;
    let log2 = log.push(ClassAttendance { id: record_id, subscription_id: s.id, attended_at: now });
    assert(log2[log.len() as int].subscription_id == after.id);
    assert(attended_on_day(log2, after.id, later as int));
}

} // verus!
