//! Users: leaderboard rows and the query that loads several users by id.

use vstd::prelude::*;
use vstd::string::*;
use crate::text::{push_char, i32_text, signed_decimal_text};
use crate::carnival_web::password::{hash_password, password_verification};

verus! {

/// A row of the leaderboard.
#[derive(Debug)]
pub struct LeaderboardEntry {
    pub username: String,
    pub battletag: String,
    pub role: String,
    pub rating: i32,
    pub wins: i32,
    pub losses: i32,
}

/// Each id followed by a comma.
pub open spec fn ids_with_commas(ids: Seq<i32>) -> Seq<char>
    decreases ids.len(),
{
    if ids.len() == 0 {
        Seq::empty()
    } else {
        ids_with_commas(ids.drop_last()) + signed_decimal_text(ids.last() as int) + seq![',']
    }
}

/// The parenthesised id list of an SQL `IN` clause: `(1,2,3)`. An empty list
/// of ids gives only the opening parenthesis.
pub open spec fn sql_id_list(ids: Seq<i32>) -> Seq<char> {
    if ids.len() == 0 {
        seq!['(']
    } else {
        seq!['('] + ids_with_commas(ids.drop_last()) + signed_decimal_text(ids.last() as int) + seq![')']
    }
}

/// The query that loads the users with the given ids.
pub fn from_vec_ids_query(user_id_list: &Vec<i32>) -> (r: String)
    ensures
        r@ == "SELECT * FROM users WHERE id IN "@ + sql_id_list(user_id_list@),
{
    let mut sql: String = String::from_str("SELECT * FROM users WHERE id IN ");
    let ghost head = sql@;
    push_char(&mut sql, '(');
    let n = user_id_list.len();
    let mut idx: usize = 0;
    assert(user_id_list@.take(0) =~= Seq::<i32>::empty());
    while idx < n
        invariant
            n == user_id_list@.len(),
            idx <= n,
            head == "SELECT * FROM users WHERE id IN "@,
            idx < n ==> sql@ == head + seq!['('] + ids_with_commas(user_id_list@.take(idx as int)),
            idx == n ==> sql@ == head + sql_id_list(user_id_list@),
        decreases n - idx,
    {
        let id = i32_text(user_id_list[idx]);
        sql.append(id.as_str());
        proof {
            assert(user_id_list@.take(idx + 1).drop_last() =~= user_id_list@.take(idx as int));
            assert(user_id_list@.take(idx + 1).last() == user_id_list@[idx as int]);
        }
        if idx != n - 1 {
            // Not the last id: `id,`
            push_char(&mut sql, ',');
            assert(sql@ =~= head + seq!['('] + ids_with_commas(user_id_list@.take(idx + 1)));
        } else {
            // The last id: `id)`
            push_char(&mut sql, ')');
            assert(user_id_list@.take(idx as int) =~= user_id_list@.drop_last());
            assert(sql@ =~= head + sql_id_list(user_id_list@));
        }
        idx = idx + 1;
    }
    assert(n == 0 ==> sql@ =~= head + sql_id_list(user_id_list@));
    sql
}

/// The password as stored for a new account: a keyed bcrypt hash under
/// `hmac_key` that accepts the password again under the same key.
pub fn stored_password(password: &str, hmac_key: &[u8]) -> (r: String)
    ensures
        r@.len() == 60,
        password_verification(password@, r@, hmac_key@) == Some(true),
{
    hash_password(password, hmac_key)
}

} // verus!
