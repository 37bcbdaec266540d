use gym_helper::clients::Client;
use gym_helper::error::{InvalidReason, Reference, ValidationError};
use gym_helper::membership::Membership;
use gym_helper::subscription::{
    class_attendance, filter_subscriptions, find_subscription, new_subscription, AttendanceDecision,
    ClassAttendance, ClassAttendanceRequest, NewSubscription, NewSubscriptionRequest, Subscription,
    SubscriptionChange, SubscriptionQueryParams,
};
use gym_helper::time::{add_days, day_number, same_day};

const DAY: i64 = 86_400;
const NOW: i64 = 1_700_000_000;

fn create_test_subscription() -> Subscription {
    let now = chrono::Utc::now().timestamp();
    Subscription {
        id: 1,
        client_id: 1,
        discipline_id: 1,
        remaining_classes: 10,
        expires_at: now + 30 * DAY,
        active: true,
        created_at: now,
        updated_at: now,
        deleted_at: None,
    }
}

fn client(id: i32, active: bool) -> Client {
    Client {
        id,
        name: "Juan".to_string(),
        last_name: "Pérez".to_string(),
        age: 25,
        phone: "123456789".to_string(),
        active,
        created_at: 0,
        updated_at: 0,
        deleted_at: None,
    }
}

fn plan(id: i32, discipline_id: i32, total_classes: i32, duration_days: i32) -> Membership {
    Membership {
        id,
        name: "Plan".to_string(),
        description: None,
        discipline_id,
        total_classes,
        active: true,
        duration_days,
        created_at: 0,
        updated_at: 0,
        deleted_at: None,
    }
}

fn sub(id: i32, client_id: i32, discipline_id: i32, remaining: i32, expires_at: i64) -> Subscription {
    Subscription {
        id,
        client_id,
        discipline_id,
        remaining_classes: remaining,
        expires_at,
        active: true,
        created_at: 0,
        updated_at: 0,
        deleted_at: None,
    }
}

fn no_params() -> SubscriptionQueryParams {
    SubscriptionQueryParams {
        client_id: None,
        discipline_id: None,
        active: None,
        expires_at: None,
        created_at: None,
        updated_at: None,
        deleted_at: None,
        created_at_from: None,
        created_at_to: None,
        updated_at_from: None,
        updated_at_to: None,
        deleted_at_from: None,
        deleted_at_to: None,
        expires_at_from: None,
        expires_at_to: None,
    }
}

#[test]
fn test_subscription_query_params_creation() {
    let params = SubscriptionQueryParams {
        client_id: Some(1),
        discipline_id: Some(2),
        active: Some(true),
        ..no_params()
    };

    assert_eq!(params.client_id, Some(1));
    assert_eq!(params.discipline_id, Some(2));
    assert_eq!(params.active, Some(true));
}

#[test]
fn test_subscription_model_structure() {
    let subscription = create_test_subscription();

    assert_eq!(subscription.id, 1);
    assert_eq!(subscription.client_id, 1);
    assert_eq!(subscription.discipline_id, 1);
    assert_eq!(subscription.remaining_classes, 10);
    assert_eq!(subscription.active, true);
    assert!(subscription.deleted_at.is_none());
}

#[test]
fn test_new_subscription_request_validation() {
    let request = NewSubscriptionRequest { client_id: 0, membership_id: 0 };

    assert_eq!(request.client_id, 0);
    assert_eq!(request.membership_id, 0);
}

#[test]
fn test_class_attendance_request_validation() {
    let request = ClassAttendanceRequest { subscription_id: 0 };

    assert_eq!(request.subscription_id, 0);
}

#[test]
fn test_validation_error_format() {
    let error_msg = "Error validating class attendance request";
    assert!(error_msg.contains("Error validating"));
    assert!(error_msg.contains("class attendance"));
}

#[test]
fn first_subscription_to_a_discipline() {
    // Client 1 holds a subscription to discipline 3 only; plan 5 is of discipline 2.
    let req = NewSubscriptionRequest { client_id: 1, membership_id: 5 };
    let subs = vec![sub(7, 1, 3, 4, NOW)];
    let r = new_subscription(&req, &Some(client(1, true)), &Some(plan(5, 2, 12, 30)), &subs, NOW);
    assert_eq!(
        r,
        Ok(SubscriptionChange::Created(NewSubscription {
            client_id: 1,
            discipline_id: 2,
            remaining_classes: 12,
            expires_at: NOW + 30 * DAY,
            active: true,
        }))
    );
}

#[test]
fn renewal_adds_classes_and_restarts_validity() {
    let req = NewSubscriptionRequest { client_id: 1, membership_id: 5 };
    let mut old = sub(9, 1, 2, 3, NOW + 10 * DAY);
    old.active = false;
    old.deleted_at = Some(NOW - DAY);
    let subs = vec![sub(8, 2, 2, 1, NOW), old];
    let r = new_subscription(&req, &Some(client(1, true)), &Some(plan(5, 2, 12, 30)), &subs, NOW);
    match r {
        Ok(SubscriptionChange::Renewed(s)) => {
            assert_eq!(s.id, 9);
            assert_eq!(s.remaining_classes, 15);
            assert_eq!(s.expires_at, NOW + 30 * DAY);
            assert!(s.active);
            assert_eq!(s.deleted_at, None);
            assert_eq!(s.updated_at, NOW);
        }
        other => panic!("expected a renewal, got {:?}", other),
    }
}

#[test]
fn subscribe_refuses_inactive_or_missing_references() {
    let req = NewSubscriptionRequest { client_id: 1, membership_id: 5 };
    let subs: Vec<Subscription> = vec![];
    let p = Some(plan(5, 2, 12, 30));
    assert_eq!(
        new_subscription(&req, &None, &p, &subs, NOW),
        Err(ValidationError::InvalidReference(Reference::Client))
    );
    assert_eq!(
        new_subscription(&req, &Some(client(1, false)), &p, &subs, NOW),
        Err(ValidationError::InvalidReference(Reference::Client))
    );
    assert_eq!(
        new_subscription(&req, &Some(client(1, true)), &None, &subs, NOW),
        Err(ValidationError::InvalidReference(Reference::Membership))
    );
    let mut inactive = plan(5, 2, 12, 30);
    inactive.active = false;
    assert_eq!(
        new_subscription(&req, &Some(client(1, true)), &Some(inactive), &subs, NOW),
        Err(ValidationError::InvalidReference(Reference::Membership))
    );
    assert_eq!(
        req.validate(&Some(client(1, true)), &Some(plan(6, 2, 12, 30))),
        Err(ValidationError::InvalidReference(Reference::Membership))
    );
}

#[test]
fn subscribe_refuses_counts_out_of_range() {
    let req = NewSubscriptionRequest { client_id: 1, membership_id: 5 };
    let subs = vec![sub(9, 1, 2, i32::MAX - 5, NOW)];
    assert_eq!(
        new_subscription(&req, &Some(client(1, true)), &Some(plan(5, 2, 12, 30)), &subs, NOW),
        Err(ValidationError::OutOfRange)
    );
    let none: Vec<Subscription> = vec![];
    assert_eq!(
        new_subscription(&req, &Some(client(1, true)), &Some(plan(5, 2, 12, 30)), &none, i64::MAX - DAY),
        Err(ValidationError::OutOfRange)
    );
}

#[test]
fn find_subscription_is_keyed_by_client_and_discipline() {
    let subs = vec![sub(1, 1, 1, 5, NOW), sub(2, 2, 2, 5, NOW), sub(3, 1, 2, 5, NOW)];
    assert_eq!(find_subscription(&subs, 1, 2).map(|s| s.id), Some(3));
    assert_eq!(find_subscription(&subs, 2, 1), None);
}

#[test]
fn attendance_takes_one_class() {
    let s = sub(10, 1, 2, 5, NOW + DAY);
    let req = ClassAttendanceRequest { subscription_id: 10 };
    let log = vec![ClassAttendance { id: 1, subscription_id: 10, attended_at: NOW - DAY }];
    match class_attendance(&req, &Some(s), &log, NOW) {
        AttendanceDecision::Record(after) => {
            assert_eq!(after.id, 10);
            assert_eq!(after.remaining_classes, 4);
            assert_eq!(after.expires_at, NOW + DAY);
        }
        other => panic!("expected a record, got {:?}", other),
    }
}

#[test]
fn attendance_on_exhausted_subscription_expires_it() {
    let s = sub(10, 1, 2, 0, NOW + DAY);
    let req = ClassAttendanceRequest { subscription_id: 10 };
    let log: Vec<ClassAttendance> = vec![];
    match class_attendance(&req, &Some(s), &log, NOW) {
        AttendanceDecision::Expire(e, reason) => {
            assert_eq!(reason, InvalidReason::NoRemainingClasses);
            assert!(!e.active);
            assert_eq!(e.remaining_classes, 0);
            assert_eq!(e.expires_at, NOW);
            assert_eq!(e.deleted_at, Some(NOW));
        }
        other => panic!("expected expiry, got {:?}", other),
    }
    assert_eq!(
        req.validate(&Some(s), &log, NOW),
        Err(ValidationError::SubscriptionInvalid(InvalidReason::NoRemainingClasses))
    );
}

#[test]
fn attendance_after_expiry_or_on_inactive_fails() {
    let req = ClassAttendanceRequest { subscription_id: 10 };
    let log: Vec<ClassAttendance> = vec![];
    let late = sub(10, 1, 2, 5, NOW - 1);
    assert_eq!(
        class_attendance(&req, &Some(late), &log, NOW),
        AttendanceDecision::Expire(late.expire_subscription(NOW), InvalidReason::Expired)
    );
    let mut off = sub(10, 1, 2, 5, NOW + DAY);
    off.active = false;
    assert_eq!(
        class_attendance(&req, &Some(off), &log, NOW),
        AttendanceDecision::Expire(off.expire_subscription(NOW), InvalidReason::NotActive)
    );
    assert_eq!(
        class_attendance(&req, &None, &log, NOW),
        AttendanceDecision::Reject(ValidationError::NotFound)
    );
    let on_expiry = sub(10, 1, 2, 5, NOW);
    assert!(matches!(class_attendance(&req, &Some(on_expiry), &log, NOW), AttendanceDecision::Record(_)));
}

#[test]
fn second_attendance_on_one_day_is_refused() {
    let s = sub(10, 1, 2, 5, NOW + 3 * DAY);
    let req = ClassAttendanceRequest { subscription_id: 10 };
    let mut log: Vec<ClassAttendance> = vec![];
    let first = class_attendance(&req, &Some(s), &log, NOW);
    let after = match first {
        AttendanceDecision::Record(a) => a,
        other => panic!("expected a record, got {:?}", other),
    };
    assert_eq!(after.remaining_classes, 4);
    log.push(ClassAttendance { id: 1, subscription_id: 10, attended_at: NOW });
    let later = NOW + 60;
    assert!(same_day(NOW, later));
    assert_eq!(
        class_attendance(&req, &Some(after), &log, later),
        AttendanceDecision::Reject(ValidationError::DuplicateAttendance)
    );
    // The next calendar day is accepted again.
    let next_day = (day_number(NOW) + 1) * DAY;
    assert!(matches!(class_attendance(&req, &Some(after), &log, next_day), AttendanceDecision::Record(_)));
    // An attendance of another subscription does not count.
    let other_log = vec![ClassAttendance { id: 2, subscription_id: 11, attended_at: NOW }];
    assert!(matches!(class_attendance(&req, &Some(s), &other_log, NOW), AttendanceDecision::Record(_)));
}

#[test]
fn filter_subscriptions_by_pair_and_range() {
    let subs = vec![sub(1, 1, 2, 5, 100), sub(2, 1, 3, 5, 200), sub(3, 2, 2, 5, 300)];
    assert_eq!(filter_subscriptions(&no_params(), &subs), subs);
    let by_client = SubscriptionQueryParams { client_id: Some(1), ..no_params() };
    let ids: Vec<i32> = filter_subscriptions(&by_client, &subs).iter().map(|s| s.id).collect();
    assert_eq!(ids, vec![1, 2]);
    let ranged = SubscriptionQueryParams { expires_at_from: Some(150), expires_at_to: Some(300), ..no_params() };
    let ids: Vec<i32> = filter_subscriptions(&ranged, &subs).iter().map(|s| s.id).collect();
    assert_eq!(ids, vec![2, 3]);
    let both = SubscriptionQueryParams { client_id: Some(1), discipline_id: Some(2), ..no_params() };
    let ids: Vec<i32> = filter_subscriptions(&both, &subs).iter().map(|s| s.id).collect();
    assert_eq!(ids, vec![1]);
    let deleted = SubscriptionQueryParams { deleted_at: Some(5), ..no_params() };
    assert!(filter_subscriptions(&deleted, &subs).is_empty());
}

#[test]
fn calendar_days_and_day_arithmetic() {
    assert_eq!(day_number(0), 0);
    assert_eq!(day_number(DAY - 1), 0);
    assert_eq!(day_number(DAY), 1);
    assert_eq!(day_number(-1), -1);
    assert!(!same_day(DAY - 1, DAY));
    assert_eq!(add_days(NOW, 30), NOW + 2_592_000);
    assert_eq!(add_days(NOW, -1), NOW - DAY);
}

#[test]
fn invalid_reasons_have_messages() {
    assert_eq!(InvalidReason::NotActive.message(), "Subscription is not active");
    assert_eq!(InvalidReason::NoRemainingClasses.message(), "No remaining classes");
    assert_eq!(InvalidReason::Expired.message(), "Subscription expired");
}
