use crate::model::{
    contains_string, holds_resource, plan_images, string_views, CachedResource, DisplayState, PlanSnapshot,
    ResourceIndex,
};
use vstd::prelude::*;

verus! {

/// Below this much free space on the card, old images are cleaned up.
pub const LOW_SPACE_BYTES: u64 = 1_073_741_824;

/// A clean-up frees images until this much space is free.
pub const TARGET_FREE_BYTES: u64 = 3_221_225_472;

/// An image chosen for deletion, with the free space once it is gone.
#[derive(Debug, Clone, PartialEq, Eq)]
pub struct CacheCleanupCandidate {
    pub sha256: String,
    pub byte_size: u64,
    pub last_used_at_unix_secs: u64,
    pub free_bytes_after_delete: u64,
}

/// The images of `images` that are not on the card, each once, in the order
/// they first appear.
pub open spec fn spec_missing(images: Seq<Seq<char>>, resources: Seq<CachedResource>) -> Seq<Seq<char>>
    decreases images.len(),
{
    if images.len() == 0 {
        Seq::empty()
    } else {
        let rest = spec_missing(images.drop_last(), resources);
        let image = images.last();
        if holds_resource(resources, image) || rest.contains(image) {
            rest
        } else {
            rest.push(image)
        }
    }
}

/// The images that the plans name and the card lacks, each once, in plan order.
pub fn missing_resources(snapshot: &PlanSnapshot, index: &ResourceIndex) -> (missing: Vec<String>)
    ensures
        string_views(missing@) == spec_missing(plan_images(snapshot.plans@), index.resources@),
{
    let mut missing: Vec<String> = Vec::new();
    let mut p: usize = 0;
    while p < snapshot.plans.len()
        invariant
            p <= snapshot.plans@.len(),
            string_views(missing@) == spec_missing(plan_images(snapshot.plans@.subrange(0, p as int)), index.resources@),
        decreases snapshot.plans@.len() - p,
    {
        let plan = &snapshot.plans[p];
        let ghost done = plan_images(snapshot.plans@.subrange(0, p as int));
        let mut i: usize = 0;
        while i < plan.images.len()
            invariant
                p < snapshot.plans@.len(),
                *plan == snapshot.plans@[p as int],
                i <= plan.images@.len(),
                done == plan_images(snapshot.plans@.subrange(0, p as int)),
                string_views(missing@) == spec_missing(
                    done + string_views(plan.images@.subrange(0, i as int)),
                    index.resources@,
                ),
            decreases plan.images@.len() - i,
        {
            let ghost old_missing = string_views(missing@);
            let ghost seen = done + string_views(plan.images@.subrange(0, i as int));
            let ghost image = plan.images@[i as int]@;
            assert(done + string_views(plan.images@.subrange(0, i + 1)) =~= seen.push(image));
            assert(seen.push(image).drop_last() =~= seen);
            let image_ref = plan.images[i].as_str();
            if !index.contains(image_ref) && !contains_string(&missing, image_ref) {
                missing.push(plan.images[i].clone());
                assert(string_views(missing@) =~= old_missing.push(image));
            }
            i = i + 1;
        }
        proof {
            let prefix = snapshot.plans@.subrange(0, p + 1);
            assert(prefix.drop_last() =~= snapshot.plans@.subrange(0, p as int));
            assert(plan.images@.subrange(0, plan.images@.len() as int) =~= plan.images@);
        }
        p = p + 1;
    }
    assert(snapshot.plans@.subrange(0, snapshot.plans@.len() as int) =~= snapshot.plans@);
    missing
}

/// The images a clean-up must keep: those the plans name and the one on screen.
pub open spec fn spec_is_protected(snapshot: PlanSnapshot, display_state: Option<DisplayState>, image: Seq<char>) -> bool {
    ||| plan_images(snapshot.plans@).contains(image)
    ||| (display_state matches Some(state) && state.image_sha256 matches Some(shown) && shown@ == image)
}

/// The images a clean-up must keep, each once.
pub fn protected_resources(snapshot: &PlanSnapshot, display_state: Option<&DisplayState>) -> (protected: Vec<String>)
    ensures
        crate::model::distinct_values(string_views(protected@)),
        forall|image: Seq<char>|
            string_views(protected@).contains(image) <==> spec_is_protected(
                *snapshot,
                match display_state {
                    Some(state) => Some(*state),
                    None => None,
                },
                image,
            ),
{
    broadcast use vstd::seq_lib::lemma_seq_contains_after_push;

    let mut protected = snapshot.referenced_resources();
    match display_state {
        Some(state) => match &state.image_sha256 {
            Some(image) => {
                if !contains_string(&protected, image.as_str()) {
                    let ghost before = string_views(protected@);
                    protected.push(image.clone());
                    assert(string_views(protected@) =~= before.push(image@));
                    assert(crate::model::distinct_values(string_views(protected@))) by {
                        assert forall|a: int, b: int|
                            0 <= a < b < string_views(protected@).len() implies string_views(protected@)[a]
                            != string_views(protected@)[b] by {
                            if b == before.len() {
                                assert(before[a] == string_views(protected@)[a]);
                            }
                        }
                    }
                }
            },
            None => {},
        },
        None => {},
    }
    protected
}

/// Text order, character by character; a prefix comes first.
pub open spec fn text_le(a: Seq<char>, b: Seq<char>) -> bool
    decreases a.len(),
{
    if a.len() == 0 {
        true
    } else if b.len() == 0 {
        false
    } else if (a[0] as u32) < (b[0] as u32) {
        true
    } else if (a[0] as u32) == (b[0] as u32) {
        text_le(a.drop_first(), b.drop_first())
    } else {
        false
    }
}

pub proof fn lemma_text_le_total(a: Seq<char>, b: Seq<char>)
    ensures
        text_le(a, b) || text_le(b, a),
    decreases a.len(),
{
    if a.len() > 0 && b.len() > 0 && (a[0] as u32) == (b[0] as u32) {
        lemma_text_le_total(a.drop_first(), b.drop_first());
    }
}

pub proof fn lemma_text_le_reflexive(a: Seq<char>)
    ensures
        text_le(a, a),
    decreases a.len(),
{
    if a.len() > 0 {
        lemma_text_le_reflexive(a.drop_first());
    }
}

pub proof fn lemma_text_le_transitive(a: Seq<char>, b: Seq<char>, c: Seq<char>)
    requires
        text_le(a, b),
        text_le(b, c),
    ensures
        text_le(a, c),
    decreases a.len(),
{
    if a.len() > 0 && b.len() > 0 && c.len() > 0 && (a[0] as u32) == (b[0] as u32) && (b[0] as u32) == (c[0] as u32) {
        lemma_text_le_transitive(a.drop_first(), b.drop_first(), c.drop_first());
    }
}

/// Whether `a` comes no later than `b` in text order.
pub fn str_le(a: &str, b: &str) -> (result: bool)
    ensures
        result == text_le(a@, b@),
{
    let a_len = a.unicode_len();
    let b_len = b.unicode_len();
    let mut i: usize = 0;
    assert(a@.skip(0) =~= a@);
    assert(b@.skip(0) =~= b@);
    while i < a_len && i < b_len
        invariant
            a_len == a@.len(),
            b_len == b@.len(),
            i <= a_len,
            i <= b_len,
            text_le(a@, b@) == text_le(a@.skip(i as int), b@.skip(i as int)),
        decreases a_len - i,
    {
        let x = a.get_char(i);
        let y = b.get_char(i);
        assert(a@.skip(i as int)[0] == x);
        assert(b@.skip(i as int)[0] == y);
        if (x as u32) < (y as u32) {
            return true;
        }
        if (x as u32) != (y as u32) {
            return false;
        }
        assert(a@.skip(i as int).drop_first() =~= a@.skip(i + 1));
        assert(b@.skip(i as int).drop_first() =~= b@.skip(i + 1));
        i = i + 1;
    }
    i == a_len
}

/// Clean-up order: least recently used first, then by name.
pub open spec fn key_le(a: CachedResource, b: CachedResource) -> bool {
    ||| a.last_used_at_unix_secs < b.last_used_at_unix_secs
    ||| (a.last_used_at_unix_secs == b.last_used_at_unix_secs && text_le(a.sha256@, b.sha256@))
}

pub proof fn lemma_key_le_total(a: CachedResource, b: CachedResource)
    ensures
        key_le(a, b) || key_le(b, a),
{
    lemma_text_le_total(a.sha256@, b.sha256@);
}

pub proof fn lemma_key_le_transitive(a: CachedResource, b: CachedResource, c: CachedResource)
    requires
        key_le(a, b),
        key_le(b, c),
    ensures
        key_le(a, c),
{
    if a.last_used_at_unix_secs == b.last_used_at_unix_secs && b.last_used_at_unix_secs == c.last_used_at_unix_secs {
        lemma_text_le_transitive(a.sha256@, b.sha256@, c.sha256@);
    }
}

fn resource_key_le(a: &CachedResource, b: &CachedResource) -> (result: bool)
    ensures
        result == key_le(*a, *b),
{
    if a.last_used_at_unix_secs != b.last_used_at_unix_secs {
        a.last_used_at_unix_secs < b.last_used_at_unix_secs
    } else {
        str_le(a.sha256.as_str(), b.sha256.as_str())
    }
}

/// A resource that a clean-up may delete.
pub open spec fn deletable(resources: Seq<CachedResource>, protected: Seq<Seq<char>>, i: int) -> bool {
    0 <= i < resources.len() && !protected.contains(resources[i].sha256@)
}

/// The byte sizes of the resources at `picks`, added up.
pub open spec fn picked_bytes(resources: Seq<CachedResource>, picks: Seq<int>) -> int
    decreases picks.len(),
{
    if picks.len() == 0 {
        0
    } else {
        picked_bytes(resources, picks.drop_last()) + resources[picks.last()].byte_size
    }
}

pub proof fn lemma_picked_bytes_nonnegative(resources: Seq<CachedResource>, picks: Seq<int>)
    ensures
        picked_bytes(resources, picks) >= 0,
    decreases picks.len(),
{
    if picks.len() > 0 {
        lemma_picked_bytes_nonnegative(resources, picks.drop_last());
    }
}

/// Free space after deleting the resources at `picks`, counting up to the
/// largest `u64`.
pub open spec fn freed(available: u64, resources: Seq<CachedResource>, picks: Seq<int>) -> u64 {
    let total = available + picked_bytes(resources, picks);
    if total > u64::MAX {
        u64::MAX
    } else {
        total as u64
    }
}

/// How many flags are set.
pub open spec fn count_true(flags: Seq<bool>) -> nat
    decreases flags.len(),
{
    if flags.len() == 0 {
        0
    } else {
        count_true(flags.drop_last()) + if flags.last() {
            1nat
        } else {
            0nat
        }
    }
}

pub proof fn lemma_count_true_bounded(flags: Seq<bool>)
    ensures
        count_true(flags) <= flags.len(),
    decreases flags.len(),
{
    if flags.len() > 0 {
        lemma_count_true_bounded(flags.drop_last());
    }
}

pub proof fn lemma_count_true_set(flags: Seq<bool>, i: int)
    requires
        0 <= i < flags.len(),
        !flags[i],
    ensures
        count_true(flags.update(i, true)) == count_true(flags) + 1,
    decreases flags.len(),
{
    let updated = flags.update(i, true);
    if i == flags.len() - 1 {
        assert(updated.drop_last() =~= flags.drop_last());
    } else {
        assert(updated.drop_last() =~= flags.drop_last().update(i, true));
        lemma_count_true_set(flags.drop_last(), i);
    }
}

/// The clean-up list `candidates` deletes the resources at `picks`, in that
/// order: each is deletable and picked once, they come in clean-up order, no
/// deletable resource left behind comes before one picked, each candidate
/// carries the free space after it, and the list stops at the first candidate
/// that reaches `target` or when nothing deletable is left.
pub open spec fn cleanup_plan(
    resources: Seq<CachedResource>,
    protected: Seq<Seq<char>>,
    available: u64,
    target: u64,
    picks: Seq<int>,
    candidates: Seq<CacheCleanupCandidate>,
) -> bool {
    &&& picks.len() == candidates.len()
    &&& forall|k: int| 0 <= k < picks.len() ==> deletable(resources, protected, #[trigger] picks[k])
    &&& forall|k: int, l: int| 0 <= k < l < picks.len() ==> picks[k] != picks[l]
    &&& forall|k: int, l: int|
        0 <= k < l < picks.len() ==> key_le(resources[#[trigger] picks[k]], resources[#[trigger] picks[l]])
    &&& forall|k: int, i: int|
        0 <= k < picks.len() && deletable(resources, protected, i) && !picks.contains(i) ==> key_le(
            resources[#[trigger] picks[k]],
            #[trigger] resources[i],
        )
    &&& forall|k: int|
        0 <= k < candidates.len() ==> {
            let candidate = #[trigger] candidates[k];
            let resource = resources[picks[k]];
            &&& candidate.sha256 == resource.sha256
            &&& candidate.byte_size == resource.byte_size
            &&& candidate.last_used_at_unix_secs == resource.last_used_at_unix_secs
            &&& candidate.free_bytes_after_delete == freed(available, resources, picks.subrange(0, k + 1))
        }
    &&& forall|k: int| 0 <= k < candidates.len() - 1 ==> (#[trigger] candidates[k]).free_bytes_after_delete < target
    &&& (candidates.len() == 0 || candidates.last().free_bytes_after_delete >= target || forall|i: int|
        deletable(resources, protected, i) ==> picks.contains(i))
    &&& (candidates.len() == 0 ==> forall|i: int| !deletable(resources, protected, i))
}

/// The images to delete when free space has fallen below `low_space_bytes`:
/// the least recently used images that are not protected, until
/// `target_free_bytes` are free; nothing when there is space enough.
pub fn cleanup_candidates(
    index: &ResourceIndex,
    protected: &Vec<String>,
    available_bytes: u64,
    low_space_bytes: u64,
    target_free_bytes: u64,
) -> (candidates: Vec<CacheCleanupCandidate>)
    ensures
        available_bytes >= low_space_bytes ==> candidates@.len() == 0,
        available_bytes < low_space_bytes ==> exists|picks: Seq<int>|
            cleanup_plan(
                index.resources@,
                string_views(protected@),
                available_bytes,
                target_free_bytes,
                picks,
                candidates@,
            ),
{
    broadcast use vstd::seq_lib::lemma_seq_contains_after_push;

    let mut selected: Vec<CacheCleanupCandidate> = Vec::new();
    if available_bytes >= low_space_bytes {
        return selected;
    }
    let resources = &index.resources;
    let count = resources.len();
    let ghost rs = resources@;
    let ghost prot = string_views(protected@);
    let mut taken: Vec<bool> = Vec::new();
    let mut j: usize = 0;
    while j < count
        invariant
            count == rs.len(),
            j <= count,
            taken@.len() == j,
            forall|i: int| 0 <= i < j ==> !#[trigger] taken@[i],
            count_true(taken@) == 0,
        decreases count - j,
    {
        let ghost before = taken@;
        taken.push(false);
        assert(taken@.drop_last() =~= before);
        j = j + 1;
    }
    let ghost mut picks: Seq<int> = Seq::empty();
    let mut free_bytes = available_bytes;
    let mut done = false;
    while !done
        invariant
            count == rs.len(),
            resources@ == rs,
            rs == index.resources@,
            prot == string_views(protected@),
            taken@.len() == count,
            forall|i: int| 0 <= i < count ==> (#[trigger] taken@[i] <==> picks.contains(i)),
            count_true(taken@) == picks.len(),
            free_bytes == freed(available_bytes, rs, picks),
            picks.len() == selected@.len(),
            forall|k: int| 0 <= k < picks.len() ==> deletable(rs, prot, #[trigger] picks[k]),
            forall|k: int, l: int| 0 <= k < l < picks.len() ==> picks[k] != picks[l],
            forall|k: int, l: int|
                0 <= k < l < picks.len() ==> key_le(rs[#[trigger] picks[k]], rs[#[trigger] picks[l]]),
            forall|k: int, i: int|
                0 <= k < picks.len() && deletable(rs, prot, i) && !picks.contains(i) ==> key_le(
                    rs[#[trigger] picks[k]],
                    #[trigger] rs[i],
                ),
            forall|k: int|
                0 <= k < selected@.len() ==> {
                    let candidate = #[trigger] selected@[k];
                    let resource = rs[picks[k]];
                    &&& candidate.sha256 == resource.sha256
                    &&& candidate.byte_size == resource.byte_size
                    &&& candidate.last_used_at_unix_secs == resource.last_used_at_unix_secs
                    &&& candidate.free_bytes_after_delete == freed(available_bytes, rs, picks.subrange(0, k + 1))
                },
            forall|k: int| 0 <= k < selected@.len() - 1 ==> (#[trigger] selected@[k]).free_bytes_after_delete
                < target_free_bytes,
            done ==> (selected@.len() == 0 || selected@.last().free_bytes_after_delete >= target_free_bytes
                || forall|i: int| deletable(rs, prot, i) ==> picks.contains(i)),
            done ==> (selected@.len() == 0 ==> forall|i: int| !deletable(rs, prot, i)),
            !done ==> (selected@.len() == 0 || selected@.last().free_bytes_after_delete < target_free_bytes),
        decreases count - picks.len(), if done { 0int } else { 1int },
    {
        proof {
            lemma_count_true_bounded(taken@);
        }
        let mut best: usize = count;
        let mut m: usize = 0;
        while m < count
            invariant
                count == rs.len(),
                resources@ == rs,
                rs == index.resources@,
                prot == string_views(protected@),
                taken@.len() == count,
                m <= count,
                best == count || (best < m && deletable(rs, prot, best as int) && !taken@[best as int]),
                best < count ==> forall|i: int|
                    0 <= i < m && deletable(rs, prot, i) && !taken@[i] ==> key_le(rs[best as int], #[trigger] rs[i]),
                best == count ==> forall|i: int| 0 <= i < m ==> !(deletable(rs, prot, i) && !#[trigger] taken@[i]),
            decreases count - m,
        {
            if !taken[m] && !contains_string(protected, resources[m].sha256.as_str()) {
                if best == count || !resource_key_le(&resources[best], &resources[m]) {
                    proof {
                        lemma_text_le_reflexive(rs[m as int].sha256@);
                        if best < count {
                            lemma_key_le_total(rs[best as int], rs[m as int]);
                            assert forall|i: int|
                                0 <= i < m && deletable(rs, prot, i) && !taken@[i] implies key_le(
                                rs[m as int],
                                #[trigger] rs[i],
                            ) by {
                                lemma_key_le_transitive(rs[m as int], rs[best as int], rs[i]);
                            }
                        }
                    }
                    best = m;
                }
            }
            m = m + 1;
        }
        if best == count {
            assert forall|i: int| deletable(rs, prot, i) implies picks.contains(i) by {
                assert(taken@[i]);
            }
            if selected.len() == 0 {
                assert forall|i: int| !deletable(rs, prot, i) by {
                    if deletable(rs, prot, i) {
                        assert(picks.contains(i));
                    }
                }
            }
            done = true;
        } else {
            let resource = &resources[best];
            let ghost old_free = free_bytes;
            free_bytes = free_bytes.saturating_add(resource.byte_size);
            let ghost old_picks = picks;
            proof {
                picks = picks.push(best as int);
                assert(picks.drop_last() =~= old_picks);
                assert forall|k: int| 0 <= k < old_picks.len() implies #[trigger] old_picks[k] == picks[k]
                    && old_picks.subrange(0, k + 1) =~= picks.subrange(0, k + 1) by {}
                assert(picks.subrange(0, picks.len() as int) =~= picks);
                assert(picked_bytes(rs, picks) == picked_bytes(rs, old_picks) + rs[best as int].byte_size);
                let old_total = available_bytes + picked_bytes(rs, old_picks);
                assert(old_free == freed(available_bytes, rs, old_picks));
                lemma_picked_bytes_nonnegative(rs, old_picks);
                if old_total > u64::MAX {
                    assert(old_free == u64::MAX);
                    assert(free_bytes == u64::MAX);
                } else {
                    assert(old_free == old_total);
                }
                assert(free_bytes == freed(available_bytes, rs, picks));
            }
            proof {
                lemma_count_true_set(taken@, best as int);
            }
            let ghost old_taken = taken@;
            taken.set(best, true);
            proof {
                lemma_count_true_bounded(taken@);
            }
            assert forall|i: int| 0 <= i < count implies (#[trigger] taken@[i] <==> picks.contains(i)) by {
                if i != best {
                    assert(taken@[i] == old_taken[i]);
                    assert(old_taken[i] <==> old_picks.contains(i));
                } else {
                    assert(picks[picks.len() - 1] == i);
                }
            }
            selected.push(
                CacheCleanupCandidate {
                    sha256: resource.sha256.clone(),
                    byte_size: resource.byte_size,
                    last_used_at_unix_secs: resource.last_used_at_unix_secs,
                    free_bytes_after_delete: free_bytes,
                },
            );
            assert forall|k: int| 0 <= k < selected@.len() implies {
                let candidate = #[trigger] selected@[k];
                let resource = rs[picks[k]];
                &&& candidate.sha256 == resource.sha256
                &&& candidate.byte_size == resource.byte_size
                &&& candidate.last_used_at_unix_secs == resource.last_used_at_unix_secs
                &&& candidate.free_bytes_after_delete == freed(available_bytes, rs, picks.subrange(0, k + 1))
            } by {
                if k < old_picks.len() {
                    assert(picks.subrange(0, k + 1) =~= old_picks.subrange(0, k + 1));
                }
            }
            if free_bytes >= target_free_bytes {
                done = true;
            }
        }
    }
    assert(cleanup_plan(rs, prot, available_bytes, target_free_bytes, picks, selected@));
    selected
}

/// The clean-up for the current plans, keeping the images they name and the
/// image on screen, with the album's thresholds.
pub fn cleanup_candidates_for_plan(
    snapshot: &PlanSnapshot,
    index: &ResourceIndex,
    display_state: Option<&DisplayState>,
    available_bytes: u64,
) -> (candidates: Vec<CacheCleanupCandidate>)
    ensures
        available_bytes >= LOW_SPACE_BYTES ==> candidates@.len() == 0,
        available_bytes < LOW_SPACE_BYTES ==> exists|picks: Seq<int>, protected: Seq<Seq<char>>|
            {
                &&& forall|image: Seq<char>|
                    protected.contains(image) <==> spec_is_protected(
                        *snapshot,
                        match display_state {
                            Some(state) => Some(*state),
                            None => None,
                        },
                        image,
                    )
                &&& cleanup_plan(
                    index.resources@,
                    protected,
                    available_bytes,
                    TARGET_FREE_BYTES,
                    picks,
                    candidates@,
                )
            },
{
    let protected = protected_resources(snapshot, display_state);
    cleanup_candidates(index, &protected, available_bytes, LOW_SPACE_BYTES, TARGET_FREE_BYTES)
}

} // verus!
