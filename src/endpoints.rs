use vstd::prelude::*;

use crate::api::{digit_text, natural_text};
use crate::constants::MAX_IDS_IN_BATCH_REQUEST;
use crate::ids::Id;
use crate::text::{join_parts, joined, string_views};

verus! {

/// The decimal digits of `n`.
pub fn natural_string(n: u64) -> (r: String)
    ensures
        r@ == natural_text(n as nat),
    decreases n,
{
    if n < 10 {
        String::from_str(digit_text(n as u8))
    } else {
        let mut s = natural_string(n / 10);
        s.append(digit_text((n % 10) as u8));
        s
    }
}

/// The decimal text of an id.
pub open spec fn id_text(id: Id) -> Seq<char> {
    natural_text(id@ as nat)
}

fn id_string(id: Id) -> (r: String)
    ensures
        r@ == id_text(id),
{
    natural_string(id.get())
}

/// `prefix`, then the id, then `suffix`.
fn around_id(prefix: &str, id: Id, suffix: &str) -> (r: String)
    ensures
        r@ == prefix@ + id_text(id) + suffix@,
{
    let mut s = String::from_str(prefix);
    let digits = id_string(id);
    s.append(&*digits);
    s.append(suffix);
    s
}

/// The batch-info address for `ids`, which the endpoint takes at most 100
/// of: the ids in order, comma-separated, as the `groupIds` parameter.
pub fn batch_info_url(ids: &Vec<Id>) -> (r: String)
    requires
        ids@.len() <= MAX_IDS_IN_BATCH_REQUEST,
    ensures
        r@ == "https://groups.roblox.com/v2/groups?groupIds="@ + joined(
            ids@.map_values(|id: Id| id_text(id)),
            ","@,
        ),
{
    let mut texts: Vec<String> = Vec::new();
    let mut i: usize = 0;
    while i < ids.len()
        invariant
            0 <= i <= ids@.len(),
            string_views(texts@) == ids@.take(i as int).map_values(|id: Id| id_text(id)),
        decreases ids@.len() - i,
    {
        let t = id_string(ids[i]);
        let ghost prev = texts@;
        texts.push(t);
        proof {
            assert(ids@.take(i + 1) =~= ids@.take(i as int).push(ids@[i as int]));
            assert(string_views(texts@) =~= string_views(prev).push(t@));
            assert(string_views(texts@) =~= ids@.take(i + 1).map_values(|id: Id| id_text(id)));
        }
        i = i + 1;
    }
    proof {
        assert(ids@.take(i as int) =~= ids@);
    }
    let mut s = String::from_str("https://groups.roblox.com/v2/groups?groupIds=");
    let list = join_parts(&texts, ",");
    s.append(&*list);
    s
}

/// The per-group info address.
pub fn detailed_info_url(group: Id) -> (r: String)
    ensures
        r@ == "https://groups.roblox.com/v1/groups/"@ + id_text(group),
{
    let r = around_id("https://groups.roblox.com/v1/groups/", group, "");
    proof {
        reveal_strlit("");
        assert(r@ =~= "https://groups.roblox.com/v1/groups/"@ + id_text(group));
    }
    r
}

/// The account's group settings address.
pub fn metadata_url() -> (r: &'static str)
    ensures
        r@ == "https://groups.roblox.com/v1/groups/metadata"@,
{
    "https://groups.roblox.com/v1/groups/metadata"
}

/// The address of the session's account.
pub fn authenticated_user_url() -> (r: &'static str)
    ensures
        r@ == "https://users.roblox.com/v1/users/authenticated"@,
{
    "https://users.roblox.com/v1/users/authenticated"
}

/// A group's funds address.
pub fn group_funds_url(group: Id) -> (r: String)
    ensures
        r@ == "https://economy.roblox.com/v1/groups/"@ + id_text(group) + "/currency"@,
{
    around_id("https://economy.roblox.com/v1/groups/", group, "/currency")
}

/// The address to join a group at.
pub fn join_group_url(group: Id) -> (r: String)
    ensures
        r@ == "https://groups.roblox.com/v1/groups/"@ + id_text(group) + "/users"@,
{
    around_id("https://groups.roblox.com/v1/groups/", group, "/users")
}

/// The address to claim a group's ownership at.
pub fn claim_group_url(group: Id) -> (r: String)
    ensures
        r@ == "https://groups.roblox.com/v1/groups/"@ + id_text(group) + "/claim-ownership"@,
{
    around_id("https://groups.roblox.com/v1/groups/", group, "/claim-ownership")
}

/// The address to remove the user `target` from a group at.
pub fn remove_user_url(group: Id, target: Id) -> (r: String)
    ensures
        r@ == "https://groups.roblox.com/v1/groups/"@ + id_text(group) + "/users/"@ + id_text(
            target,
        ),
{
    let mut s = around_id("https://groups.roblox.com/v1/groups/", group, "/users/");
    let t = id_string(target);
    s.append(&*t);
    s
}

} // verus!
