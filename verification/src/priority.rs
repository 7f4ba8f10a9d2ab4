//! Priorities: the files offered for quick access when nothing scores
//! them, the people a user shares with most, and the suggestions shown
//! beside a file (reply to a comment that mentions the user, look at
//! pending suggested changes).
use vstd::prelude::*;
use vstd::relations::sorted_by;
use crate::permissions::PermissionRecord;
use crate::storage::{FileRecord, FileOrderField, StorageRepository, file_order, live_file_of_user};
use crate::pagination::{ListQuery, OrderDirection, page_end};
use crate::rows::{count_where, find_last, last_where};
use crate::text::{str_eq, contains_id, id_list};

verus! {

broadcast use vstd::seq_lib::group_seq_properties, vstd::seq::group_seq_axioms;

/// How many collaborators are suggested at most.
pub const MAX_SUGGESTED_COLLABORATORS: usize = 5;

/// The files offered for quick access when no activity scores any: the
/// user's live files, most recently updated first, at most `limit` of them
/// (a negative limit means all).
pub fn recent_files(repo: &StorageRepository, user_id: &str, limit: i64) -> (r: Vec<FileRecord>)
    ensures
        exists|all: Seq<FileRecord>| {
            &&& sorted_by(all, file_order(FileOrderField::UpdatedAt, OrderDirection::Desc))
            &&& #[trigger] all.to_multiset() == repo.files@.filter(live_file_of_user(user_id@)).to_multiset()
            &&& r@ == all.subrange(0, page_end(all.len() as int, 0, limit as int))
        },
{
    let query = ListQuery { limit, offset: 0, order_by: Some(FileOrderField::UpdatedAt), direction: Some(OrderDirection::Desc) };
    repo.list_files_by_user(user_id, &query)
}

/// Someone a user shares with, and how many permissions the user granted
/// them.
#[derive(Debug)]
pub struct SuggestedCollaborator {
    pub user_id: String,
    pub name: String,
    pub email: String,
    pub shared_file_count: usize,
}

/// Selects the permissions that `user` granted to `other`, someone else.
pub open spec fn granted_by_to(user: Seq<char>, other: Seq<char>) -> spec_fn(PermissionRecord) -> bool {
    |p: PermissionRecord| p.granted_by@ == user && p.user_id@ == other && other != user
}

/// How many permissions `user` granted to `other`.
pub open spec fn share_count(perms: Seq<PermissionRecord>, user: Seq<char>, other: Seq<char>) -> nat {
    perms.filter(granted_by_to(user, other)).len()
}

/// Whether `c` tells truly of a collaborator of `user`: someone `user`
/// granted permissions to, how many, and the name and e-mail of the latest
/// of those permissions.
pub open spec fn describes(perms: Seq<PermissionRecord>, user: Seq<char>, c: SuggestedCollaborator) -> bool {
    let latest = last_where(perms, granted_by_to(user, c.user_id@));
    &&& share_count(perms, user, c.user_id@) > 0
    &&& c.shared_file_count == share_count(perms, user, c.user_id@)
    &&& latest matches Some(p) && c.name == p.user_name && c.email == p.user_email
}

/// The ids of a list of collaborators.
pub open spec fn collaborator_ids(r: Seq<SuggestedCollaborator>) -> Seq<Seq<char>> {
    r.map_values(|c: SuggestedCollaborator| c.user_id@)
}

/// Whether `p` is a permission that `k.0` granted to `k.1`.
pub fn is_granted_by_to(k: &(&str, &str), p: &PermissionRecord) -> (b: bool)
    ensures
        b == granted_by_to(k.0@, k.1@)(*p),
{
    str_eq(p.granted_by.as_str(), k.0) && str_eq(p.user_id.as_str(), k.1) && !str_eq(k.1, k.0)
}

/// Everyone `user_id` granted a permission to, each once.
fn collaborator_id_list(perms: &Vec<PermissionRecord>, user_id: &str) -> (ids: Vec<String>)
    ensures
        id_list(ids@).no_duplicates(),
        forall|k: int| 0 <= k < ids@.len() ==> share_count(perms@, user_id@, #[trigger] ids@[k]@) > 0,
        forall|g: Seq<char>| #![trigger share_count(perms@, user_id@, g)] share_count(perms@, user_id@, g) > 0 ==> id_list(ids@).contains(g),
{
    let n = perms.len();
    let mut ids: Vec<String> = Vec::new();
    proof {
        assert forall|g: Seq<char>| #[trigger] share_count(perms@.take(0), user_id@, g) == 0 by {
            assert(perms@.take(0).filter(granted_by_to(user_id@, g)) =~= Seq::<PermissionRecord>::empty()) by { reveal(Seq::filter); }
        }
    }
    let mut i: usize = 0;
    while i < n
        invariant
            n == perms@.len(),
            i <= n,
            id_list(ids@).no_duplicates(),
            forall|k: int| 0 <= k < ids@.len() ==> share_count(perms@.take(i as int), user_id@, #[trigger] ids@[k]@) > 0,
            forall|g: Seq<char>| #![trigger share_count(perms@.take(i as int), user_id@, g)] share_count(perms@.take(i as int), user_id@, g) > 0 ==> id_list(ids@).contains(g),
        decreases n - i,
    {
        let x = &perms[i];
        proof {
            assert forall|g: Seq<char>| #[trigger] share_count(perms@.take(i + 1), user_id@, g)
                == share_count(perms@.take(i as int), user_id@, g) + (if granted_by_to(user_id@, g)(perms@[i as int]) { 1int } else { 0int }) by {
                crate::seqs::lemma_filter_take_step(perms@, i as int, granted_by_to(user_id@, g));
            }
        }
        if str_eq(x.granted_by.as_str(), user_id) && !str_eq(x.user_id.as_str(), user_id) {
            if !contains_id(&ids, x.user_id.as_str()) {
                let ghost old_ids = ids@;
                ids.push(x.user_id.clone());
                proof {
                    assert(id_list(ids@) =~= id_list(old_ids).push(x.user_id@));
                    assert forall|a: int, b: int| 0 <= a < b < id_list(ids@).len() implies id_list(ids@)[a] != id_list(ids@)[b] by {
                        if b == id_list(ids@).len() - 1 {
                            assert(id_list(old_ids)[a] == id_list(ids@)[a]);
                        }
                    }
                    assert forall|g: Seq<char>| #[trigger] share_count(perms@.take(i + 1), user_id@, g) > 0 implies id_list(ids@).contains(g) by {
                        if g != x.user_id@ {
                            assert(share_count(perms@.take(i as int), user_id@, g) > 0);
                            assert(id_list(old_ids).contains(g));
                            let k = choose|k: int| 0 <= k < id_list(old_ids).len() && id_list(old_ids)[k] == g;
                            assert(id_list(ids@)[k] == g);
                        } else {
                            assert(id_list(ids@)[ids@.len() - 1] == g);
                        }
                    }
                }
            } else {
                proof {
                    assert forall|g: Seq<char>| #[trigger] share_count(perms@.take(i + 1), user_id@, g) > 0 implies id_list(ids@).contains(g) by {
                        if g != x.user_id@ {
                            assert(share_count(perms@.take(i as int), user_id@, g) > 0);
                        }
                    }
                }
            }
        } else {
            proof {
                assert forall|g: Seq<char>| #[trigger] share_count(perms@.take(i + 1), user_id@, g) > 0 implies id_list(ids@).contains(g) by {
                    assert(!granted_by_to(user_id@, g)(perms@[i as int]));
                }
            }
        }
        proof {
            assert forall|k: int| 0 <= k < ids@.len() implies share_count(perms@.take(i + 1), user_id@, #[trigger] ids@[k]@) > 0 by {
                if share_count(perms@.take(i as int), user_id@, ids@[k]@) == 0 {
                    assert(ids@[k]@ == x.user_id@);
                }
            }
        }
        i += 1;
    }
    proof {
        crate::seqs::lemma_take_all(perms@);
        assert forall|g: Seq<char>| #[trigger] share_count(perms@, user_id@, g) > 0 implies id_list(ids@).contains(g) by {
            assert(share_count(perms@.take(n as int), user_id@, g) > 0);
        }
    }
    ids
}

/// A copy of `c`.
fn copy_collaborator(c: &SuggestedCollaborator) -> (r: SuggestedCollaborator)
    ensures
        r == *c,
{
    SuggestedCollaborator {
        user_id: c.user_id.clone(),
        name: c.name.clone(),
        email: c.email.clone(),
        shared_file_count: c.shared_file_count,
    }
}

/// One entry per person `user_id` granted permissions to, in the order of
/// `ids`, with how many and the name and e-mail of the latest.
fn describe_all(perms: &Vec<PermissionRecord>, user_id: &str, ids: &Vec<String>) -> (cands: Vec<SuggestedCollaborator>)
    requires
        forall|k: int| 0 <= k < ids@.len() ==> share_count(perms@, user_id@, #[trigger] ids@[k]@) > 0,
    ensures
        cands@.len() == ids@.len(),
        forall|t: int| 0 <= t < cands@.len() ==> describes(perms@, user_id@, #[trigger] cands@[t]) && cands@[t].user_id@ == ids@[t]@,
{
    let m = ids.len();
    let mut cands: Vec<SuggestedCollaborator> = Vec::new();
    let mut k: usize = 0;
    while k < m
        invariant
            m == ids@.len(),
            k <= m,
            cands@.len() == k,
            forall|t: int| 0 <= t < ids@.len() ==> share_count(perms@, user_id@, #[trigger] ids@[t]@) > 0,
            forall|t: int| 0 <= t < k ==> describes(perms@, user_id@, #[trigger] cands@[t]) && cands@[t].user_id@ == ids@[t]@,
        decreases m - k,
    {
        let id = ids[k].as_str();
        let count = count_where(perms, is_granted_by_to, &(user_id, id), Ghost(granted_by_to(user_id@, id@)));
        let latest = find_last(perms, is_granted_by_to, &(user_id, id), Ghost(granted_by_to(user_id@, id@)));
        assert(share_count(perms@, user_id@, ids@[k as int]@) > 0);
        match latest {
            Some(j) => {
                let c = SuggestedCollaborator {
                    user_id: ids[k].clone(),
                    name: perms[j].user_name.clone(),
                    email: perms[j].user_email.clone(),
                    shared_file_count: count,
                };
                assert(describes(perms@, user_id@, c));
                cands.push(c);
            },
            None => {
                assert(false);
            },
        }
        k += 1;
    }
    cands
}

/// The people `user_id` granted permissions to most often: at most five,
/// each once, the most frequent first (in no particular order among equal
/// counts), with how many permissions and the name and e-mail of the latest.
/// Whoever is left out was granted no more than anyone listed, and is left
/// out only when five are listed.
pub fn suggested_collaborators(perms: &Vec<PermissionRecord>, user_id: &str) -> (r: Vec<SuggestedCollaborator>)
    ensures
        r@.len() <= MAX_SUGGESTED_COLLABORATORS,
        forall|i: int| 0 <= i < r@.len() ==> describes(perms@, user_id@, #[trigger] r@[i]),
        collaborator_ids(r@).no_duplicates(),
        forall|i: int, j: int| 0 <= i < j < r@.len() ==> r@[i].shared_file_count >= r@[j].shared_file_count,
        forall|g: Seq<char>| #![trigger share_count(perms@, user_id@, g)]
            share_count(perms@, user_id@, g) > 0 && !collaborator_ids(r@).contains(g) ==> {
                &&& r@.len() == MAX_SUGGESTED_COLLABORATORS
                &&& forall|i: int| 0 <= i < r@.len() ==> share_count(perms@, user_id@, g) <= #[trigger] r@[i].shared_file_count
            },
{
    let ids = collaborator_id_list(perms, user_id);
    let cands = describe_all(perms, user_id, &ids);
    let m = cands.len();
    let mut chosen: Vec<bool> = Vec::new();
    let mut q: usize = 0;
    while q < m
        invariant
            q <= m,
            chosen@.len() == q,
            forall|z: int| 0 <= z < q ==> !chosen@[z],
        decreases m - q,
    {
        chosen.push(false);
        q += 1;
    }
    let mut r: Vec<SuggestedCollaborator> = Vec::new();
    let ghost mut picked: Seq<int> = Seq::empty();
    let mut done = false;
    while r.len() < MAX_SUGGESTED_COLLABORATORS && !done
        invariant
            m == cands@.len(),
            chosen@.len() == m,
            r@.len() <= MAX_SUGGESTED_COLLABORATORS,
            picked.len() == r@.len(),
            forall|t: int| 0 <= t < picked.len() ==> 0 <= #[trigger] picked[t] < m && chosen@[picked[t]] && r@[t] == cands@[picked[t]],
            forall|a: int, b: int| 0 <= a < b < picked.len() ==> picked[a] != picked[b],
            forall|z: int| 0 <= z < m && #[trigger] chosen@[z] ==> exists|t: int| 0 <= t < picked.len() && picked[t] == z,
            forall|a: int, b: int| 0 <= a < b < r@.len() ==> r@[a].shared_file_count >= r@[b].shared_file_count,
            forall|z: int, t: int| #![trigger chosen@[z], r@[t]]
                0 <= z < m && !chosen@[z] && 0 <= t < r@.len() ==> cands@[z].shared_file_count <= r@[t].shared_file_count,
            done ==> forall|z: int| 0 <= z < m ==> #[trigger] chosen@[z],
        decreases MAX_SUGGESTED_COLLABORATORS - r@.len() + (if done { 0int } else { 1int }),
    {
        let mut best: Option<usize> = None;
        let mut z: usize = 0;
        while z < m
            invariant
                z <= m,
                m == cands@.len(),
                chosen@.len() == m,
                match best {
                    Some(b) => b < z && !chosen@[b as int] && forall|y: int| 0 <= y < z && !chosen@[y] ==>
                        #[trigger] cands@[y].shared_file_count <= cands@[b as int].shared_file_count,
                    None => forall|y: int| 0 <= y < z ==> #[trigger] chosen@[y],
                },
            decreases m - z,
        {
            if !chosen[z] {
                match best {
                    Some(b) => {
                        if cands[z].shared_file_count > cands[b].shared_file_count {
                            best = Some(z);
                        }
                    },
                    None => {
                        best = Some(z);
                    },
                }
            }
            z += 1;
        }
        match best {
            None => {
                done = true;
            },
            Some(b) => {
                let ghost old_chosen = chosen@;
                let ghost old_r = r@;
                chosen.set(b, true);
                r.push(copy_collaborator(&cands[b]));
                proof {
                    let old_picked = picked;
                    picked = picked.push(b as int);
                    assert forall|z: int| 0 <= z < m && #[trigger] chosen@[z] implies exists|t: int| 0 <= t < picked.len() && picked[t] == z by {
                        if z == b as int {
                            assert(picked[picked.len() - 1] == z);
                        } else {
                            assert(old_chosen[z]);
                            let t = choose|t: int| 0 <= t < old_picked.len() && old_picked[t] == z;
                            assert(picked[t] == z);
                        }
                    }
                    assert forall|t: int| 0 <= t < picked.len() implies 0 <= #[trigger] picked[t] < m && chosen@[picked[t]] && r@[t] == cands@[picked[t]] by {
                        if t < old_picked.len() {
                            assert(picked[t] == old_picked[t]);
                            assert(r@[t] == old_r[t]);
                        }
                    }
                    assert forall|a: int, c: int| 0 <= a < c < picked.len() implies picked[a] != picked[c] by {
                        if c == picked.len() - 1 {
                            assert(old_chosen[old_picked[a]]);
                        }
                    }
                    assert forall|a: int, c: int| 0 <= a < c < r@.len() implies r@[a].shared_file_count >= r@[c].shared_file_count by {
                        if c == r@.len() - 1 {
                            assert(old_r[a] == r@[a]);
                            assert(!old_chosen[b as int]);
                        } else {
                            assert(old_r[a] == r@[a] && old_r[c] == r@[c]);
                        }
                    }
                    assert forall|y: int, t: int| #![trigger chosen@[y], r@[t]]
                        0 <= y < m && !chosen@[y] && 0 <= t < r@.len() implies cands@[y].shared_file_count <= r@[t].shared_file_count by {
                        assert(y != b as int);
                        assert(!old_chosen[y]);
                        if t < old_r.len() {
                            assert(old_r[t] == r@[t]);
                        }
                    }
                }
            },
        }
    }
    proof {
        assert forall|i: int| 0 <= i < r@.len() implies describes(perms@, user_id@, #[trigger] r@[i]) by {
            assert(r@[i] == cands@[picked[i]]);
        }
        assert forall|a: int, c: int| 0 <= a < c < collaborator_ids(r@).len() implies collaborator_ids(r@)[a] != collaborator_ids(r@)[c] by {
            assert(r@[a] == cands@[picked[a]] && r@[c] == cands@[picked[c]]);
            assert(id_list(ids@)[picked[a]] == ids@[picked[a]]@);
            assert(id_list(ids@)[picked[c]] == ids@[picked[c]]@);
        }
        assert forall|g: Seq<char>| #![trigger share_count(perms@, user_id@, g)]
            share_count(perms@, user_id@, g) > 0 && !collaborator_ids(r@).contains(g) implies {
                &&& r@.len() == MAX_SUGGESTED_COLLABORATORS
                &&& forall|i: int| 0 <= i < r@.len() ==> share_count(perms@, user_id@, g) <= #[trigger] r@[i].shared_file_count
            } by {
            assert(id_list(ids@).contains(g));
            let k = choose|k: int| 0 <= k < id_list(ids@).len() && id_list(ids@)[k] == g;
            assert(cands@[k].user_id@ == g);
            if chosen@[k] {
                let t = choose|t: int| 0 <= t < picked.len() && picked[t] == k;
                assert(collaborator_ids(r@)[t] == g);
            }
            assert(!chosen@[k]);
            assert forall|i: int| 0 <= i < r@.len() implies share_count(perms@, user_id@, g) <= #[trigger] r@[i].shared_file_count by {
                assert(!chosen@[k] && 0 <= i < r@.len());
            }
        }
    }
    r
}

/// Something the user might want to do with a file.
#[derive(Debug)]
pub struct SuggestedAction {
    pub file_id: String,
    pub action_type: String,
    pub label: String,
    pub target_id: Option<String>,
}

/// The suggestions for the file `file_id`: a reply to the unresolved
/// comment `mention` that names the user, if there is one, then a look at
/// the suggested changes, if `pending_suggestions` are waiting.
pub fn suggested_actions(file_id: &str, mention: Option<String>, pending_suggestions: i64) -> (r: Vec<SuggestedAction>)
    ensures
        r@.len() == (if mention is Some { 1int } else { 0int }) + (if pending_suggestions > 0 { 1int } else { 0int }),
        mention matches Some(c) ==> {
            &&& r@[0].file_id@ == file_id@
            &&& r@[0].action_type@ == "reply_comment"@
            &&& r@[0].label@ == "Reply to comment"@
            &&& r@[0].target_id == Some(c)
        },
        pending_suggestions > 0 ==> {
            let a = r@[r@.len() - 1];
            &&& a.file_id@ == file_id@
            &&& a.action_type@ == "view_changes"@
            &&& a.label@ == "View suggested changes"@
            &&& a.target_id is None
        },
{
    let mut actions: Vec<SuggestedAction> = Vec::new();
    let has_mention = mention.is_some();
    if let Some(c) = mention {
        actions.push(SuggestedAction {
            file_id: file_id.to_owned(),
            action_type: "reply_comment".to_owned(),
            label: "Reply to comment".to_owned(),
            target_id: Some(c),
        });
    }
    if pending_suggestions > 0 {
        actions.push(SuggestedAction {
            file_id: file_id.to_owned(),
            action_type: "view_changes".to_owned(),
            label: "View suggested changes".to_owned(),
            target_id: None,
        });
    }
    actions
}

} // verus!
