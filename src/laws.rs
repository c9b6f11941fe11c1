//! Properties that relate several operations of the store and the error
//! translation.
use vstd::prelude::*;
use crate::errors::{UserError, not_found_text};
use crate::store::{views, created_model, has_id, ids_within_count, is_first_with_id, updated_model};
use crate::text::has_substring;
use crate::user::{User, SearchModel, UserCreateInput, UserModel, matches_search};

verus! {

/// Ids only grow under creates: starting from a store whose ids do not exceed
/// its count (the empty store is one), a create returns an id above every id
/// already present, and the store it leaves is again of that kind, so any
/// sequence of creates hands out strictly increasing ids.
pub proof fn lemma_create_ids_increase(before: Seq<UserModel>, input: UserCreateInput)
    requires
        ids_within_count(before),
        before.len() < i32::MAX,
    ensures
        forall|i: int|
            0 <= i < before.len() ==> #[trigger] before[i].id < created_model(before, input).id,
        ids_within_count(before.push(created_model(before, input))),
{
    let after = before.push(created_model(before, input));
    assert forall|i: int| 0 <= i < after.len() implies #[trigger] after[i].id <= after.len() by {
        if i < before.len() {
            assert(after[i] == before[i]);
        }
    }
}

/// A lookup by the id that a create returned finds the created record, with
/// exactly the fields that were given, on a store whose ids do not exceed its
/// count.
pub proof fn lemma_create_then_lookup(before: Seq<UserModel>, input: UserCreateInput)
    requires
        ids_within_count(before),
        before.len() < i32::MAX,
    ensures
        ({
            let c = created_model(before, input);
            let after = before.push(c);
            has_id(after, c.id) && is_first_with_id(after, c.id, before.len() as int)
                && after[before.len() as int] == c && c.name == input.name@ && c.email
                == input.email@ && c.age == input.age
        }),
{
    let c = created_model(before, input);
    let after = before.push(c);
    assert(after[before.len() as int] == c);
    assert forall|j: int| 0 <= j < before.len() implies #[trigger] after[j].id != c.id by {
        assert(after[j] == before[j]);
    }
}

/// An update that supplies only a name changes the name alone: id, email and
/// age keep their values.
pub proof fn lemma_update_name_only(u: UserModel, name: Seq<char>)
    ensures
        updated_model(u, Some(name), None, None) == (UserModel { name, ..u }),
{
}

/// After a delete of `id` no record has `id`; when none had it, the
/// collection is unchanged.
pub proof fn lemma_delete_removes(s: Seq<UserModel>, id: i32)
    ensures
        !has_id(s.filter(|u: UserModel| u.id != id), id),
        !has_id(s, id) ==> s.filter(|u: UserModel| u.id != id) == s,
    decreases s.len(),
{
    let pred = |u: UserModel| u.id != id;
    reveal(Seq::filter);
    if s.len() > 0 {
        let rest = s.drop_last();
        lemma_delete_removes(rest, id);
        if !has_id(s, id) {
            assert forall|k: int| 0 <= k < rest.len() implies #[trigger] rest[k].id != id by {
                assert(rest[k] == s[k]);
            }
            assert(s.last().id != id);
            assert(rest.push(s.last()) =~= s);
        }
    }
}

/// A search with only a minimum age keeps exactly the records of at least that
/// age, whatever their names and emails.
pub proof fn lemma_search_by_age_only(s: Seq<UserModel>, min_age: u8)
    ensures
        s.filter(|u: UserModel| matches_search(u, SearchModel { name: None, email: None, age: Some(min_age) }))
            == s.filter(|u: UserModel| u.age >= min_age),
{
    let f = SearchModel { name: None, email: None, age: Some(min_age) };
    let p = |u: UserModel| matches_search(u, f);
    let q = |u: UserModel| u.age >= min_age;
    assert(p =~= q);
}

/// Listing a collection that reset left empty gives no records.
pub proof fn lemma_reset_then_list(after_reset: Seq<UserModel>, listed: Seq<User>)
    requires
        after_reset == Seq::<UserModel>::empty(),
        views(listed) == after_reset,
    ensures
        listed.len() == 0,
{
    assert(views(listed).len() == listed.len());
}

/// A driver failure that found no row shows the fixed not-found text, never
/// the driver's own message; any other failure shows a message that contains
/// the driver's message.
pub proof fn lemma_error_messages(driver_text: String)
    ensures
        UserError::NotFound.message_of() == not_found_text(),
        has_substring(UserError::DatabaseError(driver_text).message_of(), driver_text@),
{
    let m = UserError::DatabaseError(driver_text).message_of();
    let k = "Database error: "@.len() as int;
    assert(m.subrange(k, k + driver_text@.len()) =~= driver_text@);
}

} // verus!
