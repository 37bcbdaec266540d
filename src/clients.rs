//! The client directory.
use vstd::prelude::*;

use crate::filter::{
    at_eq, at_from, at_to, check_at_eq, check_at_from, check_at_to, check_flag_eq, check_int_eq,
    check_opt_at_eq, check_opt_at_from, check_opt_at_to, check_text_eq, flag_eq, int_eq,
    lemma_filter_prefix_empty, lemma_filter_prefix_step, opt_at_eq, opt_at_from, opt_at_to,
    text_eq,
};
use crate::subscription::{delete_client_subscriptions, deleted_at, Subscription};

verus! {

/// A client of the gym. Deleting a client is soft: `active` turns false and
/// `deleted_at` records when.
#[derive(Clone, Debug)]
pub struct Client {
    pub id: i32,
    pub name: String,
    pub last_name: String,
    pub age: i32,
    pub phone: String,
    pub active: bool,
    pub created_at: i64,
    pub updated_at: i64,
    pub deleted_at: Option<i64>,
}

/// The data of a client, as given when the client registers or is edited.
#[derive(Clone, Debug)]
pub struct CreateClientRequest {
    pub name: String,
    pub last_name: String,
    pub age: i32,
    pub phone: String,
}

/// The parameters of a filtered listing of clients. Every present parameter
/// must hold; `_from` and `_to` bound a column from below and above.
#[derive(Clone, Debug)]
pub struct ClientQueryParams {
    pub name: Option<String>,
    pub last_name: Option<String>,
    pub age: Option<i32>,
    pub phone: Option<String>,
    pub active: Option<bool>,
    pub created_at: Option<i64>,
    pub updated_at: Option<i64>,
    pub deleted_at: Option<i64>,
    pub created_from: Option<i64>,
    pub created_to: Option<i64>,
    pub updated_from: Option<i64>,
    pub updated_to: Option<i64>,
    pub deleted_from: Option<i64>,
    pub deleted_to: Option<i64>,
}

/// Whether `c` satisfies every present parameter of `p`.
pub open spec fn client_matches(p: ClientQueryParams, c: Client) -> bool {
    &&& text_eq(p.name, c.name)
    &&& text_eq(p.last_name, c.last_name)
    &&& int_eq(p.age, c.age)
    &&& text_eq(p.phone, c.phone)
    &&& flag_eq(p.active, c.active)
    &&& at_eq(p.created_at, c.created_at)
    &&& at_eq(p.updated_at, c.updated_at)
    &&& opt_at_eq(p.deleted_at, c.deleted_at)
    &&& at_from(p.created_from, c.created_at)
    &&& at_to(p.created_to, c.created_at)
    &&& at_from(p.updated_from, c.updated_at)
    &&& at_to(p.updated_to, c.updated_at)
    &&& opt_at_from(p.deleted_from, c.deleted_at)
    &&& opt_at_to(p.deleted_to, c.deleted_at)
}

/// The clients of `clients` that satisfy `p`, in their order.
pub open spec fn matching_clients(p: ClientQueryParams, clients: Seq<Client>) -> Seq<Client> {
    clients.filter(|c: Client| client_matches(p, c))
}

impl ClientQueryParams {
    /// Whether `c` satisfies every present parameter.
    pub fn matches(&self, c: &Client) -> (r: bool)
        ensures
            r == client_matches(*self, *c),
    {
        check_text_eq(&self.name, &c.name) && check_text_eq(&self.last_name, &c.last_name)
            && check_int_eq(self.age, c.age) && check_text_eq(&self.phone, &c.phone)
            && check_flag_eq(self.active, c.active) && check_at_eq(self.created_at, c.created_at)
            && check_at_eq(self.updated_at, c.updated_at) && check_opt_at_eq(
            self.deleted_at,
            c.deleted_at,
        ) && check_at_from(self.created_from, c.created_at) && check_at_to(
            self.created_to,
            c.created_at,
        ) && check_at_from(self.updated_from, c.updated_at) && check_at_to(
            self.updated_to,
            c.updated_at,
        ) && check_opt_at_from(self.deleted_from, c.deleted_at) && check_opt_at_to(
            self.deleted_to,
            c.deleted_at,
        )
    }
}

impl Client {
    /// A copy of the record.
    pub fn duplicate(&self) -> (r: Client)
        ensures
            r == *self,
    {
        Client {
            id: self.id,
            name: self.name.clone(),
            last_name: self.last_name.clone(),
            age: self.age,
            phone: self.phone.clone(),
            active: self.active,
            created_at: self.created_at,
            updated_at: self.updated_at,
            deleted_at: self.deleted_at,
        }
    }

    /// The client soft-deleted at `now`: inactive, with its deletion stamped.
    pub fn soft_deleted(&self, now: i64) -> (r: Client)
        ensures
            r == (Client { active: false, deleted_at: Some(now), ..*self }),
    {
        Client { active: false, deleted_at: Some(now), ..self.duplicate() }
    }

    /// The client reactivated: active again, with no deletion stamp.
    pub fn activated(&self) -> (r: Client)
        ensures
            r == (Client { active: true, deleted_at: None, ..*self }),
    {
        Client { active: true, deleted_at: None, ..self.duplicate() }
    }

    /// The client edited with the data of `req`; an edit also reactivates.
    pub fn updated(&self, req: &CreateClientRequest) -> (r: Client)
        ensures
            r == (Client {
                name: req.name,
                last_name: req.last_name,
                age: req.age,
                phone: req.phone,
                active: true,
                deleted_at: None,
                ..*self
            }),
    {
        Client {
            name: req.name.clone(),
            last_name: req.last_name.clone(),
            age: req.age,
            phone: req.phone.clone(),
            active: true,
            deleted_at: None,
            ..self.duplicate()
        }
    }
}

/// The filtered listing: the clients of `clients` that satisfy every present
/// parameter of `params`, in their order. With no parameter present, all of them.
pub fn filter_clients(params: &ClientQueryParams, clients: &Vec<Client>) -> (r: Vec<Client>)
    ensures
        r@ == matching_clients(*params, clients@),
{
    let ghost f = |c: Client| client_matches(*params, c);
    let mut out: Vec<Client> = Vec::new();
    let mut i: usize = 0;
    proof {
        lemma_filter_prefix_empty(clients@, f);
    }
    while i < clients.len()
        invariant
            0 <= i <= clients.len(),
            out@ == clients@.subrange(0, i as int).filter(f),
            f == (|c: Client| client_matches(*params, c)),
        decreases clients.len() - i,
    {
        proof {
            lemma_filter_prefix_step(clients@, f, i as int);
        }
        let c = &clients[i];
        let keep = params.matches(c);
        if keep {
            out.push(c.duplicate());
        }
        i += 1;
    }
    assert(clients@.subrange(0, clients@.len() as int) =~= clients@);
    out
}

/// Deleting a client: the client is soft-deleted at `now`, and so is every
/// subscription of `subs` that belongs to it, in every discipline. The other
/// subscriptions are returned as they are.
pub fn delete_client(client: &Client, subs: &Vec<Subscription>, now: i64) -> (r: (
    Client,
    Vec<Subscription>,
))
    ensures
        r.0 == (Client { active: false, deleted_at: Some(now), ..*client }),
        r.1@.len() == subs@.len(),
        forall|i: int|
            0 <= i < subs@.len() ==> #[trigger] r.1@[i] == (if subs@[i].client_id == client.id {
                deleted_at(subs@[i], now)
            } else {
                subs@[i]
            }),
{
    (client.soft_deleted(now), delete_client_subscriptions(subs, client.id, now))
}

} // verus!
