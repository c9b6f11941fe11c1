//! The record store and the query/mutation façade over it.
use vstd::prelude::*;
use crate::errors::{ApiError, UserError, not_found_text, translates};
use crate::text::contains_ignore_case;
use crate::user::{
    DBUser, User, UserCreateInput, UserModel, UserSearchInput, matches_search, text_matches,
};

verus! {

/// The canonical collection of user records, in insertion order.
pub struct UserStore {
    users: Vec<User>,
}

impl View for UserStore {
    type V = Seq<UserModel>;

    closed spec fn view(&self) -> Seq<UserModel> {
        views(self.users@)
    }
}

/// The values of a sequence of records.
pub open spec fn views(s: Seq<User>) -> Seq<UserModel> {
    Seq::new(s.len(), |i: int| s[i]@)
}

/// `i` is the position of the first record with `id`.
pub open spec fn is_first_with_id(s: Seq<UserModel>, id: i32, i: int) -> bool {
    0 <= i < s.len() && s[i].id == id && forall|j: int| 0 <= j < i ==> s[j].id != id
}

/// Some record has `id`.
pub open spec fn has_id(s: Seq<UserModel>, id: i32) -> bool {
    exists|i: int| 0 <= i < s.len() && s[i].id == id
}

/// The record that a create appends to `s`: its id is one past the count.
pub open spec fn created_model(s: Seq<UserModel>, input: UserCreateInput) -> UserModel {
    UserModel { id: (s.len() + 1) as i32, name: input.name@, email: input.email@, age: input.age }
}

/// `u` with the supplied fields replaced and the others kept.
pub open spec fn updated_model(
    u: UserModel,
    name: Option<Seq<char>>,
    email: Option<Seq<char>>,
    age: Option<u8>,
) -> UserModel {
    UserModel {
        id: u.id,
        name: match name {
            Some(n) => n,
            None => u.name,
        },
        email: match email {
            Some(e) => e,
            None => u.email,
        },
        age: match age {
            Some(a) => a,
            None => u.age,
        },
    }
}

/// Every id in `s` is at most the number of records: true of the empty store
/// and kept by every create.
pub open spec fn ids_within_count(s: Seq<UserModel>) -> bool {
    forall|i: int| 0 <= i < s.len() ==> s[i].id <= s.len()
}

impl UserStore {
    /// An empty store.
    pub fn new() -> (r: UserStore)
        ensures
            r@ == Seq::<UserModel>::empty(),
    {
        UserStore { users: Vec::new() }
    }

    /// The number of records.
    pub fn len(&self) -> (r: usize)
        ensures
            r == self@.len(),
    {
        self.users.len()
    }
}

/// A text criterion, checked against one field.
fn field_matches(field: &String, pattern: &Option<String>) -> (r: bool)
    ensures
        r == text_matches(field@, crate::user::opt_view(*pattern)),
{
    match pattern {
        Some(p) => contains_ignore_case(field.as_str(), p.as_str()),
        None => true,
    }
}

/// Whether one record satisfies every criterion of a search.
pub fn user_matches(user: &User, input: &UserSearchInput) -> (r: bool)
    ensures
        r == matches_search(user@, input@),
{
    let age_ok = match input.age {
        Some(a) => user.age >= a,
        None => true,
    };
    field_matches(&user.name, &input.name) && field_matches(&user.email, &input.email) && age_ok
}

/// The read side of the API.
pub struct QueryRoot;

impl QueryRoot {
    /// A copy of every record, in insertion order.
    pub fn all_users(&self, store: &UserStore) -> (r: Vec<User>)
        ensures
            views(r@) == store@,
    {
        let mut out: Vec<User> = Vec::new();
        let mut i: usize = 0;
        while i < store.users.len()
            invariant
                i <= store.users@.len(),
                out@.len() == i,
                views(out@) == store@.subrange(0, i as int),
            decreases store.users@.len() - i,
        {
            let u = store.users[i].copy();
            out.push(u);
            proof {
                assert(store@[i as int] == store.users@[i as int]@);
                assert(views(out@) =~= store@.subrange(0, i + 1));
            }
            i = i + 1;
        }
        assert(store@.subrange(0, i as int) =~= store@);
        out
    }

    /// The first record with `id`, or `None` when no record has it.
    pub fn user_by_id(&self, store: &UserStore, id: i32) -> (r: Option<User>)
        ensures
            r is None <==> !has_id(store@, id),
            r matches Some(u) ==> exists|i: int| is_first_with_id(store@, id, i) && u@ == store@[i],
    {
        let mut i: usize = 0;
        while i < store.users.len()
            invariant
                i <= store.users@.len(),
                forall|j: int| 0 <= j < i ==> store@[j].id != id,
            decreases store.users@.len() - i,
        {
            if store.users[i].id == id {
                let u = store.users[i].copy();
                assert(is_first_with_id(store@, id, i as int));
                return Some(u);
            }
            i = i + 1;
        }
        None
    }

    /// The records that satisfy every supplied criterion, in insertion order.
    pub fn search_users(&self, store: &UserStore, input: UserSearchInput) -> (r: Vec<User>)
        ensures
            views(r@) == store@.filter(|u: UserModel| matches_search(u, input@)),
    {
        let ghost pred = |u: UserModel| matches_search(u, input@);
        let mut out: Vec<User> = Vec::new();
        let mut i: usize = 0;
        while i < store.users.len()
            invariant
                i <= store.users@.len(),
                pred == (|u: UserModel| matches_search(u, input@)),
                views(out@) == store@.subrange(0, i as int).filter(pred),
            decreases store.users@.len() - i,
        {
            if user_matches(&store.users[i], &input) {
                out.push(store.users[i].copy());
            }
            proof {
                reveal(Seq::filter);
                assert(store@.subrange(0, i + 1).drop_last() =~= store@.subrange(0, i as int));
                assert(views(out@) =~= store@.subrange(0, i + 1).filter(pred));
            }
            i = i + 1;
        }
        assert(store@.subrange(0, i as int) =~= store@);
        out
    }
}

impl QueryRoot {
    /// The outcome of reading every row: the rows themselves, or the driver's
    /// failure translated.
    pub fn db_users(&self, fetched: Result<Vec<DBUser>, sqlx::Error>) -> (r: Result<
        Vec<DBUser>,
        UserError,
    >)
        ensures
            fetched is Ok <==> r is Ok,
            r matches Ok(rows) ==> fetched matches Ok(f) && rows@ == f@,
            fetched matches Err(e) ==> r matches Err(u) && translates(e, u),
    {
        match fetched {
            Ok(rows) => Ok(rows),
            Err(e) => Err(UserError::from(e)),
        }
    }

    /// The outcome of reading the row with a given id: the row, `NotFound`
    /// when there was none, or the driver's failure translated.
    pub fn db_user_by_id(&self, fetched: Result<Option<DBUser>, sqlx::Error>) -> (r: Result<
        DBUser,
        UserError,
    >)
        ensures
            fetched matches Ok(Some(row)) ==> r == Ok::<DBUser, UserError>(row),
            fetched matches Ok(None) ==> r == Err::<DBUser, UserError>(UserError::NotFound),
            fetched matches Err(e) ==> r matches Err(u) && translates(e, u),
    {
        match fetched {
            Ok(Some(row)) => Ok(row),
            Ok(None) => Err(UserError::NotFound),
            Err(e) => Err(UserError::from(e)),
        }
    }
}

/// The write side of the API.
pub struct MutationRoot;

impl MutationRoot {
    /// Appends a record whose id is one past the current count, and returns it.
    pub fn create_user(&self, store: &mut UserStore, input: UserCreateInput) -> (r: User)
        requires
            old(store)@.len() < i32::MAX,
        ensures
            r@ == created_model(old(store)@, input),
            final(store)@ == old(store)@.push(r@),
    {
        let id: i32 = (store.users.len() as i32) + 1;
        let user = User { id, name: input.name, email: input.email, age: input.age };
        let kept = user.copy();
        store.users.push(kept);
        proof {
            assert(views(store.users@) =~= views(old(store).users@).push(user@));
        }
        user
    }

    /// Replaces the supplied fields of the first record with `id` and returns
    /// it; fails with a not-found error naming `id` when no record has it.
    pub fn update_user(
        &self,
        store: &mut UserStore,
        id: i32,
        name: Option<String>,
        email: Option<String>,
        age: Option<u8>,
    ) -> (r: Result<User, ApiError>)
        ensures
            r is Err <==> !has_id(old(store)@, id),
            r matches Err(e) ==> e.message@ == not_found_text() && e.id == Some(id) && final(store)@ == old(store)@,
            r matches Ok(u) ==> exists|i: int|
                is_first_with_id(old(store)@, id, i) && u@ == updated_model(
                    old(store)@[i],
                    crate::user::opt_view(name),
                    crate::user::opt_view(email),
                    age,
                ) && final(store)@ == old(store)@.update(i, u@),
    {
        let mut i: usize = 0;
        while i < store.users.len()
            invariant
                i <= store.users@.len(),
                store@ == old(store)@,
                forall|j: int| 0 <= j < i ==> store@[j].id != id,
            decreases store.users@.len() - i,
        {
            if store.users[i].id == id {
                let mut user = store.users[i].copy();
                match name {
                    Some(n) => user.name = n,
                    None => {},
                }
                match email {
                    Some(e) => user.email = e,
                    None => {},
                }
                match age {
                    Some(a) => user.age = a,
                    None => {},
                }
                let result = user.copy();
                store.users.set(i, user);
                proof {
                    assert(is_first_with_id(old(store)@, id, i as int));
                    assert(views(store.users@) =~= old(store)@.update(i as int, result@));
                }
                return Ok(result);
            }
            i = i + 1;
        }
        Err(ApiError::not_found(id))
    }

    /// Removes every record with `id`; true when one was removed.
    pub fn delete_user(&self, store: &mut UserStore, id: i32) -> (r: bool)
        ensures
            r == has_id(old(store)@, id),
            final(store)@ == old(store)@.filter(|u: UserModel| u.id != id),
    {
        let ghost pred = |u: UserModel| u.id != id;
        let ghost all = store@;
        let mut kept: Vec<User> = Vec::new();
        let mut removed = false;
        let mut i: usize = 0;
        while i < store.users.len()
            invariant
                i <= store.users@.len(),
                all == store@,
                pred == (|u: UserModel| u.id != id),
                views(kept@) == all.subrange(0, i as int).filter(pred),
                removed == has_id(all.subrange(0, i as int), id),
            decreases store.users@.len() - i,
        {
            if store.users[i].id == id {
                removed = true;
            } else {
                kept.push(store.users[i].copy());
            }
            proof {
                reveal(Seq::filter);
                let next = all.subrange(0, i + 1);
                assert(next.drop_last() =~= all.subrange(0, i as int));
                assert(views(kept@) =~= next.filter(pred));
                if removed {
                    if store.users@[i as int].id == id {
                        assert(next[i as int].id == id);
                    } else {
                        let k = choose|k: int|
                            0 <= k < i && #[trigger] all.subrange(0, i as int)[k].id == id;
                        assert(next[k].id == id);
                    }
                } else {
                    assert forall|k: int| 0 <= k < i + 1 implies #[trigger] next[k].id != id by {
                        if k < i {
                            assert(all.subrange(0, i as int)[k] == next[k]);
                        }
                    }
                }
            }
            i = i + 1;
        }
        proof {
            assert(all.subrange(0, i as int) =~= all);
        }
        store.users = kept;
        removed
    }

    /// Empties the store; always true.
    pub fn reset_users(&self, store: &mut UserStore) -> (r: bool)
        ensures
            r,
            final(store)@ == Seq::<UserModel>::empty(),
    {
        store.users = Vec::new();
        proof {
            assert(views(store.users@) =~= Seq::<UserModel>::empty());
        }
        true
    }
}

} // verus!
