//! The catalog: disciplines and the membership plans sold for them.
use vstd::prelude::*;

verus! {

/// A discipline taught at the gym ("CrossFit", "Yoga", ...). Deleting one is
/// soft: `deleted_at` records when.
#[derive(Clone, Debug)]
pub struct Discipline {
    pub id: i32,
    pub name: String,
    pub description: Option<String>,
    pub created_at: i64,
    pub updated_at: i64,
    pub deleted_at: Option<i64>,
}

/// A membership plan: a number of classes of one discipline, valid for a
/// number of days. The plan's price is kept by the store alongside.
#[derive(Clone, Debug)]
pub struct Membership {
    pub id: i32,
    pub name: String,
    pub description: Option<String>,
    pub discipline_id: i32,
    pub total_classes: i32,
    pub active: bool,
    pub duration_days: i32,
    pub created_at: i64,
    pub updated_at: i64,
    pub deleted_at: Option<i64>,
}

/// A request to add a discipline.
#[derive(Clone, Debug)]
pub struct NewDisciplineRequest {
    pub name: String,
    pub description: Option<String>,
}

/// The kinds of weekly plans.
#[derive(Clone, Copy, Debug, PartialEq, Eq, Structural)]
pub enum MembershipKind {
    ThreePerWeek,
    FivePerWeek,
}

/// A request that names a client and a membership plan.
#[derive(Clone, Copy, Debug, PartialEq, Eq, Structural)]
pub struct NewClientMembershipRequest {
    pub client_id: i32,
    pub membership_id: i32,
}

/// A request to record attendance against a client's membership.
#[derive(Clone, Copy, Debug, PartialEq, Eq, Structural)]
pub struct NewClassAttendanceRequest {
    pub client_membership_id: i32,
}

/// `m` deactivated at `now`.
pub open spec fn deactivated(m: Membership, now: i64) -> Membership {
    Membership { active: false, deleted_at: Some(now), ..m }
}

fn copy_text(t: &Option<String>) -> (r: Option<String>)
    ensures
        r == *t,
{
    match t {
        Some(s) => Some(s.clone()),
        None => None,
    }
}

impl Discipline {
    /// A copy of the record.
    pub fn duplicate(&self) -> (r: Discipline)
        ensures
            r == *self,
    {
        Discipline {
            id: self.id,
            name: self.name.clone(),
            description: copy_text(&self.description),
            created_at: self.created_at,
            updated_at: self.updated_at,
            deleted_at: self.deleted_at,
        }
    }

    /// The discipline soft-deleted at `now`.
    pub fn soft_deleted(&self, now: i64) -> (r: Discipline)
        ensures
            r == (Discipline { deleted_at: Some(now), ..*self }),
    {
        Discipline { deleted_at: Some(now), ..self.duplicate() }
    }

    /// The discipline restored: no deletion stamp.
    pub fn activated(&self) -> (r: Discipline)
        ensures
            r == (Discipline { deleted_at: None, ..*self }),
    {
        Discipline { deleted_at: None, ..self.duplicate() }
    }
}

impl Membership {
    /// A copy of the record.
    pub fn duplicate(&self) -> (r: Membership)
        ensures
            r == *self,
    {
        Membership {
            id: self.id,
            name: self.name.clone(),
            description: copy_text(&self.description),
            discipline_id: self.discipline_id,
            total_classes: self.total_classes,
            active: self.active,
            duration_days: self.duration_days,
            created_at: self.created_at,
            updated_at: self.updated_at,
            deleted_at: self.deleted_at,
        }
    }

    /// The plan deactivated at `now`: no longer sold, with its deletion stamped.
    pub fn deactivated(&self, now: i64) -> (r: Membership)
        ensures
            r == deactivated(*self, now),
    {
        Membership { active: false, deleted_at: Some(now), ..self.duplicate() }
    }

    /// The plan reactivated: sold again, with no deletion stamp.
    pub fn activated(&self) -> (r: Membership)
        ensures
            r == (Membership { active: true, deleted_at: None, ..*self }),
    {
        Membership { active: true, deleted_at: None, ..self.duplicate() }
    }
}

/// Deleting a discipline: the discipline is soft-deleted at `now`, and every
/// plan of `plans` under it is deactivated. The other plans are returned as
/// they are.
pub fn delete_discipline(discipline: &Discipline, plans: &Vec<Membership>, now: i64) -> (r: (
    Discipline,
    Vec<Membership>,
))
    ensures
        r.0 == (Discipline { deleted_at: Some(now), ..*discipline }),
        r.1@.len() == plans@.len(),
        forall|i: int|
            0 <= i < plans@.len() ==> #[trigger] r.1@[i] == (if plans@[i].discipline_id
                == discipline.id {
                deactivated(plans@[i], now)
            } else {
                plans@[i]
            }),
{
    let mut out: Vec<Membership> = Vec::new();
    let mut i: usize = 0;
    while i < plans.len()
        invariant
            0 <= i <= plans.len(),
            out@.len() == i,
            forall|j: int|
                0 <= j < i ==> #[trigger] out@[j] == (if plans@[j].discipline_id == discipline.id {
                    deactivated(plans@[j], now)
                } else {
                    plans@[j]
                }),
        decreases plans.len() - i,
    {
        let m = &plans[i];
        if m.discipline_id == discipline.id {
            out.push(m.deactivated(now));
        } else {
            out.push(m.duplicate());
        }
        i += 1;
    }
    (discipline.soft_deleted(now), out)
}

} // verus!
