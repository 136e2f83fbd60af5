use vstd::prelude::*;

verus! {

/// The newest `max` entries of `s`, in order; all of `s` when it is short enough.
pub open spec fn keep_newest(s: Seq<String>, max: nat) -> Seq<String> {
    if s.len() <= max {
        s
    } else {
        s.skip(s.len() - max)
    }
}

/// One login's effect on the active-session list: append the fresh
/// identifier, then evict from the front until the bound holds again.
pub open spec fn fifo_push(s: Seq<String>, id: String, max: nat) -> Seq<String> {
    keep_newest(s.push(id), max)
}

/// The active-session list left by a run of logins: `ids` are the fresh
/// session identifiers in the order they were minted, starting from `init`.
pub open spec fn sessions_after_logins(init: Seq<String>, ids: Seq<String>, max: nat) -> Seq<String>
    decreases ids.len(),
{
    if ids.len() == 0 {
        init
    } else {
        sessions_after_logins(fifo_push(init, ids[0], max), ids.skip(1), max)
    }
}

/// Appends the fresh session identifier and evicts the oldest entries
/// until at most `max` remain, exactly as `fifo_push` says.
pub fn register_session(ids: &mut Vec<String>, jwt_id: String, max: usize)
    ensures
        final(ids)@ =~= fifo_push(old(ids)@, jwt_id, max as nat),
        final(ids)@.len() <= max,
{
    let ghost pushed: Seq<String> = old(ids)@.push(jwt_id);
    ids.push(jwt_id);
    while ids.len() > max
        invariant
            ids@.len() <= pushed.len(),
            ids@ =~= pushed.skip(pushed.len() - ids@.len()),
            pushed.len() > max ==> ids@.len() >= max,
            pushed.len() <= max ==> ids@ =~= pushed,
        decreases ids@.len(),
    {
        ids.remove(0);
    }
}

/// Session bound: once at least `max` logins have happened, the list holds
/// exactly the `max` most recently minted identifiers, in insertion order,
/// whatever it held before — the oldest entries were evicted first.
pub proof fn lemma_session_bound(init: Seq<String>, ids: Seq<String>, max: nat)
    requires
        ids.len() > max,
    ensures
        sessions_after_logins(init, ids, max) =~= ids.skip(ids.len() - max),
        sessions_after_logins(init, ids, max).len() == max,
{
    lemma_sessions_after_logins_shape(init, ids, max);
    let all = init + ids;
    assert(keep_newest(all, max) =~= all.skip(all.len() - max));
    assert(all.skip(all.len() - max) =~= ids.skip(ids.len() - max));
}

/// A non-empty run of logins leaves the newest `max` of "the prior list,
/// then every minted identifier in order".
pub proof fn lemma_sessions_after_logins_shape(init: Seq<String>, ids: Seq<String>, max: nat)
    requires
        ids.len() > 0,
    ensures
        sessions_after_logins(init, ids, max) =~= keep_newest(init + ids, max),
    decreases ids.len(),
{
    let next = fifo_push(init, ids[0], max);
    if ids.len() == 1 {
        assert(ids.skip(1).len() == 0);
        assert(sessions_after_logins(next, ids.skip(1), max) == next);
        assert(init.push(ids[0]) =~= init + ids);
    } else {
        lemma_sessions_after_logins_shape(next, ids.skip(1), max);
        assert(sessions_after_logins(init, ids, max) == sessions_after_logins(next, ids.skip(1), max));
        lemma_keep_newest_prefix(init.push(ids[0]), ids.skip(1), max);
        assert(init.push(ids[0]) + ids.skip(1) =~= init + ids);
    }
}

/// Trimming a prefix to the newest `max` before appending more does not
/// change the newest `max` of the whole.
proof fn lemma_keep_newest_prefix(s: Seq<String>, t: Seq<String>, max: nat)
    ensures
        keep_newest(keep_newest(s, max) + t, max) =~= keep_newest(s + t, max),
{
    let ks = keep_newest(s, max);
    if s.len() <= max {
        assert(ks + t =~= s + t);
    } else {
        let dropped: nat = (s.len() - max) as nat;
        assert(ks + t =~= (s + t).skip(dropped as int));
        lemma_keep_newest_skip(s + t, dropped, max);
    }
}

/// Skipping entries that `keep_newest` would discard anyway changes nothing.
proof fn lemma_keep_newest_skip(s: Seq<String>, k: nat, max: nat)
    requires
        k + max <= s.len(),
    ensures
        keep_newest(s.skip(k as int), max) =~= keep_newest(s, max),
{
}

} // verus!
