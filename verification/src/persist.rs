//! Rebuilding the registry from persisted records, and flattening it back
//! into them.
//!
//! The registry persists as two independent line files: one clip record
//! per line, and one `(code, position)` binding per line, the position
//! naming the clip's line in the first file. Reading, writing and the
//! record encoding live in the application layer; what stands here is the
//! pure part: which records a rebuilt registry accepts, and how a registry
//! flattens into binding records.
//!
//! A record that would break the registry's shape is skipped, never
//! fatal: a clip whose parameters are out of range or whose name repeats
//! an earlier line, and a binding whose code is the reserved `0` or whose
//! position names no accepted clip. Of several binding lines claiming the
//! same code — or the same clip — the last one wins, as a later store
//! into a map overwrites an earlier one. Identities are re-assigned in
//! line order.

use vstd::prelude::*;

use crate::key_task::KeyTaskCode;
use crate::registry::SoundRegistry;
use crate::soundbite::{Soundbite, SoundbiteData};

verus! {

/// Some soundbite in the sequence carries this name.
pub open spec fn sb_seq_has_name(s: Seq<Soundbite>, name: Seq<char>) -> bool {
    exists|i: int| 0 <= i < s.len() && s[i].data.name@ == name
}

/// Some binding in the sequence maps this code.
pub open spec fn kt_seq_has_code(s: Seq<(KeyTaskCode, u64)>, code: KeyTaskCode) -> bool {
    exists|j: int| 0 <= j < s.len() && s[j].0 == code
}

/// Some binding in the sequence points at this identity.
pub open spec fn kt_seq_has_id(s: Seq<(KeyTaskCode, u64)>, id: u64) -> bool {
    exists|j: int| 0 <= j < s.len() && s[j].1 == id
}

/// The soundbites a rebuilt registry holds: the records in line order,
/// those with out-of-range parameters or an already-seen name skipped,
/// identities re-assigned as the accepted position.
pub open spec fn spec_restore_soundbites(records: Seq<SoundbiteData>) -> Seq<Soundbite>
    decreases records.len(),
{
    if records.len() == 0 {
        Seq::empty()
    } else {
        let prefix = spec_restore_soundbites(records.drop_last());
        let d = records.last();
        if d.wf() && !sb_seq_has_name(prefix, d.name@) {
            prefix.push(Soundbite { id: prefix.len() as u64, data: d })
        } else {
            prefix
        }
    }
}

/// The bindings a rebuilt registry holds, in line order. A line is
/// skipped when its code is the reserved `0` or its position names no
/// accepted clip — and also when a later line claims the same code or the
/// same clip: the last claim wins, as a later store into a map overwrites
/// an earlier one. Each surviving line binds its code to the identity of
/// the clip at its position.
pub open spec fn spec_restore_keytasks(
    bindings: Seq<(KeyTaskCode, usize)>,
    sbs: Seq<Soundbite>,
) -> Seq<(KeyTaskCode, u64)>
    decreases bindings.len(),
{
    if bindings.len() == 0 {
        Seq::empty()
    } else {
        let rest = spec_restore_keytasks(bindings.drop_first(), sbs);
        let b = bindings.first();
        if b.0 != 0 && (b.1 as int) < sbs.len() && !kt_seq_has_code(rest, b.0)
            && !kt_seq_has_id(rest, sbs[b.1 as int].id) {
            rest.insert(0, (b.0, sbs[b.1 as int].id))
        } else {
            rest
        }
    }
}

/// The restored soundbites have the rebuilt registry's shape: positional
/// identities, parameters in range, and unique names.
pub proof fn lemma_restore_soundbites_wf(records: Seq<SoundbiteData>)
    requires
        records.len() <= u64::MAX,
    ensures
        ({
            let s = spec_restore_soundbites(records);
            &&& s.len() <= records.len()
            &&& forall|i: int| 0 <= i < s.len() ==> #[trigger] s[i].id == i
            &&& forall|i: int| 0 <= i < s.len() ==> #[trigger] s[i].data.wf()
            &&& forall|i: int, j: int|
                0 <= i < j < s.len() ==> s[i].data.name@ != s[j].data.name@
        }),
    decreases records.len(),
{
    if records.len() > 0 {
        lemma_restore_soundbites_wf(records.drop_last());
        let prefix = spec_restore_soundbites(records.drop_last());
        let d = records.last();
        if d.wf() && !sb_seq_has_name(prefix, d.name@) {
            let s = spec_restore_soundbites(records);
            assert forall|i: int, j: int|
                0 <= i < j < s.len() implies s[i].data.name@ != s[j].data.name@ by {
                if j == s.len() - 1 {
                    assert(!sb_seq_has_name(prefix, d.name@));
                    assert(prefix[i].data.name@ != d.name@);
                }
            }
        }
    }
}

/// The restored bindings have the rebuilt registry's shape: codes unique
/// and nonzero, at most one code per identity, every identity that of a
/// restored soundbite.
pub proof fn lemma_restore_keytasks_wf(bindings: Seq<(KeyTaskCode, usize)>, sbs: Seq<Soundbite>)
    ensures
        ({
            let s = spec_restore_keytasks(bindings, sbs);
            &&& forall|i: int, j: int| 0 <= i < j < s.len() ==> s[i].0 != s[j].0
            &&& forall|i: int, j: int| 0 <= i < j < s.len() ==> s[i].1 != s[j].1
            &&& forall|j: int| 0 <= j < s.len() ==> (#[trigger] s[j].0) != 0
            &&& forall|j: int|
                0 <= j < s.len() ==> exists|i: int|
                    0 <= i < sbs.len() && #[trigger] sbs[i].id == (#[trigger] s[j]).1
        }),
    decreases bindings.len(),
{
    if bindings.len() > 0 {
        lemma_restore_keytasks_wf(bindings.drop_first(), sbs);
        let rest = spec_restore_keytasks(bindings.drop_first(), sbs);
        let b = bindings.first();
        if b.0 != 0 && (b.1 as int) < sbs.len() && !kt_seq_has_code(rest, b.0)
            && !kt_seq_has_id(rest, sbs[b.1 as int].id) {
            let s = spec_restore_keytasks(bindings, sbs);
            rest.insert_ensures(0, (b.0, sbs[b.1 as int].id));
            assert forall|i: int, j: int| 0 <= i < j < s.len() implies s[i].0 != s[j].0 by {
                assert(s[j] == rest[j - 1]);
                if i == 0 {
                    if rest[j - 1].0 == b.0 {
                        assert(kt_seq_has_code(rest, b.0));
                    }
                } else {
                    assert(s[i] == rest[i - 1]);
                }
            }
            assert forall|i: int, j: int| 0 <= i < j < s.len() implies s[i].1 != s[j].1 by {
                assert(s[j] == rest[j - 1]);
                if i == 0 {
                    if rest[j - 1].1 == sbs[b.1 as int].id {
                        assert(kt_seq_has_id(rest, sbs[b.1 as int].id));
                    }
                } else {
                    assert(s[i] == rest[i - 1]);
                }
            }
            assert forall|j: int| 0 <= j < s.len() implies (#[trigger] s[j].0) != 0 by {
                if j > 0 {
                    assert(s[j] == rest[j - 1]);
                }
            }
            assert forall|j: int|
                0 <= j < s.len() implies exists|i: int|
                0 <= i < sbs.len() && #[trigger] sbs[i].id == (#[trigger] s[j]).1 by {
                if j == 0 {
                    assert(sbs[b.1 as int].id == s[0].1);
                } else {
                    assert(s[j] == rest[j - 1]);
                }
            }
        }
    }
}

/// Whether some soundbite in the vector carries this name.
fn vec_has_name(soundbites: &Vec<Soundbite>, name: &String) -> (r: bool)
    ensures
        r == sb_seq_has_name(soundbites@, name@),
{
    let n = soundbites.len();
    let mut i: usize = 0;
    while i < n
        invariant
            0 <= i <= n,
            n == soundbites@.len(),
            forall|k: int| 0 <= k < i ==> soundbites@[k].data.name@ != name@,
        decreases n - i,
    {
        if soundbites[i].data.name == *name {
            return true;
        }
        i = i + 1;
    }
    false
}

/// Whether some binding in the vector maps this code.
fn vec_has_code(keytasks: &Vec<(KeyTaskCode, u64)>, code: KeyTaskCode) -> (r: bool)
    ensures
        r == kt_seq_has_code(keytasks@, code),
{
    let n = keytasks.len();
    let mut j: usize = 0;
    while j < n
        invariant
            0 <= j <= n,
            n == keytasks@.len(),
            forall|k: int| 0 <= k < j ==> keytasks@[k].0 != code,
        decreases n - j,
    {
        if keytasks[j].0 == code {
            return true;
        }
        j = j + 1;
    }
    false
}

/// Whether some binding in the vector points at this identity.
fn vec_has_id(keytasks: &Vec<(KeyTaskCode, u64)>, id: u64) -> (r: bool)
    ensures
        r == kt_seq_has_id(keytasks@, id),
{
    let n = keytasks.len();
    let mut j: usize = 0;
    while j < n
        invariant
            0 <= j <= n,
            n == keytasks@.len(),
            forall|k: int| 0 <= k < j ==> keytasks@[k].1 != id,
        decreases n - j,
    {
        if keytasks[j].1 == id {
            return true;
        }
        j = j + 1;
    }
    false
}

/// Rebuilds a registry from persisted records, skipping every record the
/// registry's shape refuses, and re-assigning identities in line order.
pub fn restore(records: Vec<SoundbiteData>, bindings: Vec<(KeyTaskCode, usize)>) -> (r:
    SoundRegistry)
    ensures
        r.wf(),
        r.soundbites@ == spec_restore_soundbites(records@),
        r.keytasks@ == spec_restore_keytasks(bindings@, r.soundbites@),
        r.next_id == r.soundbites@.len(),
{
    let ghost all_records = records@;
    let n0 = records.len();
    proof {
        assert(all_records.len() == n0);
        assert(all_records.len() <= u64::MAX);
    }
    let mut records = records;
    let mut soundbites: Vec<Soundbite> = Vec::new();
    let ghost mut taken: int = 0;
    while records.len() > 0
        invariant
            0 <= taken <= all_records.len(),
            records@ =~= all_records.skip(taken),
            soundbites@ == spec_restore_soundbites(all_records.take(taken)),
            soundbites@.len() <= taken,
        decreases records@.len(),
    {
        let d = records.remove(0);
        proof {
            assert(d == all_records[taken]);
            assert(records@ =~= all_records.skip(taken + 1));
            assert(all_records.take(taken + 1).drop_last() =~= all_records.take(taken));
            assert(all_records.take(taken + 1).last() == d);
        }
        let accept = (d.volume >= crate::soundbite::MIN_PERCENT && d.volume
            <= crate::soundbite::MAX_PERCENT && d.speed >= crate::soundbite::MIN_PERCENT
            && d.speed <= crate::soundbite::MAX_PERCENT) && !vec_has_name(&soundbites, &d.name);
        if accept {
            let id = soundbites.len() as u64;
            soundbites.push(Soundbite { id, data: d });
        }
        proof {
            taken = taken + 1;
        }
    }
    proof {
        assert(all_records.take(taken) =~= all_records);
    }

    // The binding lines are read back to front: each line is kept only
    // when no later line claims its code or its clip, so the last claim
    // wins, and a kept line goes to the front so that line order stands.
    let ghost all_bindings = bindings@;
    let mut keytasks: Vec<(KeyTaskCode, u64)> = Vec::new();
    let m = bindings.len();
    let mut j: usize = m;
    while j > 0
        invariant
            0 <= j <= m,
            m == all_bindings.len(),
            bindings@ == all_bindings,
            keytasks@ == spec_restore_keytasks(all_bindings.skip(j as int), soundbites@),
        decreases j,
    {
        j = j - 1;
        let b = bindings[j];
        proof {
            assert(all_bindings.skip(j as int).drop_first() =~= all_bindings.skip(j + 1));
            assert(all_bindings.skip(j as int).first() == b);
        }
        if b.0 != 0 && b.1 < soundbites.len() {
            let id = soundbites[b.1].id;
            if !vec_has_code(&keytasks, b.0) && !vec_has_id(&keytasks, id) {
                keytasks.insert(0, (b.0, id));
            }
        }
    }
    proof {
        assert(all_bindings.skip(0) =~= all_bindings);
    }

    let next_id = soundbites.len() as u64;
    let r = SoundRegistry { soundbites, keytasks, next_id };
    proof {
        lemma_restore_soundbites_wf(all_records);
        lemma_restore_keytasks_wf(all_bindings, r.soundbites@);
    }
    r
}

/// Flattens the registry's bindings into persistable records: each code
/// with the position of its soundbite in allocation order.
pub fn keytask_snapshot(registry: &SoundRegistry) -> (r: Vec<(KeyTaskCode, usize)>)
    requires
        registry.wf(),
    ensures
        r@.len() == registry.keytasks@.len(),
        forall|j: int|
            0 <= j < r@.len() ==> (#[trigger] r@[j]).0 == registry.keytasks@[j].0 && 0 <= r@[j].1
                < registry.soundbites@.len() && registry.soundbites@[r@[j].1 as int].id
                == registry.keytasks@[j].1,
{
    let m = registry.keytasks.len();
    let mut out: Vec<(KeyTaskCode, usize)> = Vec::new();
    let mut j: usize = 0;
    while j < m
        invariant
            0 <= j <= m,
            m == registry.keytasks@.len(),
            registry.wf(),
            out@.len() == j,
            forall|k: int|
                0 <= k < j ==> (#[trigger] out@[k]).0 == registry.keytasks@[k].0 && 0 <= out@[k].1
                    < registry.soundbites@.len() && registry.soundbites@[out@[k].1 as int].id
                    == registry.keytasks@[k].1,
        decreases m - j,
    {
        let (code, id) = (registry.keytasks[j].0, registry.keytasks[j].1);
        proof {
            assert(registry.has_id(registry.keytasks@[j as int].1));
        }
        let n = registry.soundbites.len();
        let mut i: usize = 0;
        let mut pos: usize = 0;
        let mut found = false;
        while i < n
            invariant
                0 <= i <= n,
                n == registry.soundbites@.len(),
                found ==> 0 <= pos < n && registry.soundbites@[pos as int].id == id,
                !found ==> forall|k: int| 0 <= k < i ==> registry.soundbites@[k].id != id,
            decreases n - i,
        {
            if !found && registry.soundbites[i].id == id {
                pos = i;
                found = true;
            }
            i = i + 1;
        }
        proof {
            if !found {
                let w = choose|w: int|
                    0 <= w < registry.soundbites@.len() && registry.soundbites@[w].id == id;
                assert(registry.soundbites@[w].id != id);
            }
        }
        out.push((code, pos));
        j = j + 1;
    }
    out
}


/// Records that are all in range with pairwise distinct names are all
/// accepted, in order, under positional identities.
proof fn lemma_restore_soundbites_all_accepted(records: Seq<SoundbiteData>)
    requires
        forall|i: int| 0 <= i < records.len() ==> (#[trigger] records[i]).wf(),
        forall|i: int, j: int|
            0 <= i < j < records.len() ==> records[i].name@ != records[j].name@,
    ensures
        spec_restore_soundbites(records).len() == records.len(),
        forall|i: int|
            0 <= i < records.len() ==> #[trigger] spec_restore_soundbites(records)[i] == (Soundbite {
                id: i as u64,
                data: records[i],
            }),
    decreases records.len(),
{
    if records.len() > 0 {
        lemma_restore_soundbites_all_accepted(records.drop_last());
        let prefix = spec_restore_soundbites(records.drop_last());
        let d = records.last();
        assert(d.wf());
        assert(!sb_seq_has_name(prefix, d.name@)) by {
            if sb_seq_has_name(prefix, d.name@) {
                let i = choose|i: int|
                    0 <= i < prefix.len() && prefix[i].data.name@ == d.name@;
                assert(prefix[i] == (Soundbite { id: i as u64, data: records[i] }));
                assert(records[i].name@ == records[records.len() - 1].name@);
            }
        }
    }
}

/// Binding records with nonzero pairwise distinct codes and valid pairwise
/// distinct positions are all accepted, in order, against soundbites whose
/// identities are their positions.
proof fn lemma_restore_keytasks_all_accepted(
    pairs: Seq<(KeyTaskCode, usize)>,
    sbs: Seq<Soundbite>,
)
    requires
        forall|i: int| 0 <= i < sbs.len() ==> (#[trigger] sbs[i]).id == i,
        forall|j: int| 0 <= j < pairs.len() ==> (#[trigger] pairs[j]).0 != 0,
        forall|j: int| 0 <= j < pairs.len() ==> (#[trigger] pairs[j]).1 < sbs.len(),
        forall|i: int, j: int| 0 <= i < j < pairs.len() ==> pairs[i].0 != pairs[j].0,
        forall|i: int, j: int| 0 <= i < j < pairs.len() ==> pairs[i].1 != pairs[j].1,
    ensures
        spec_restore_keytasks(pairs, sbs).len() == pairs.len(),
        forall|j: int|
            0 <= j < pairs.len() ==> #[trigger] spec_restore_keytasks(pairs, sbs)[j] == (
            pairs[j].0,
            pairs[j].1 as u64,
            ),
    decreases pairs.len(),
{
    if pairs.len() > 0 {
        let tail = pairs.drop_first();
        assert(forall|j: int| 0 <= j < tail.len() ==> #[trigger] tail[j] == pairs[j + 1]);
        lemma_restore_keytasks_all_accepted(tail, sbs);
        let rest = spec_restore_keytasks(tail, sbs);
        let b = pairs.first();
        assert(sbs[b.1 as int].id == b.1 as u64);
        assert(!kt_seq_has_code(rest, b.0)) by {
            if kt_seq_has_code(rest, b.0) {
                let j = choose|j: int| 0 <= j < rest.len() && rest[j].0 == b.0;
                assert(rest[j] == (tail[j].0, tail[j].1 as u64));
                assert(pairs[j + 1].0 == pairs[0].0);
            }
        }
        assert(!kt_seq_has_id(rest, sbs[b.1 as int].id)) by {
            if kt_seq_has_id(rest, sbs[b.1 as int].id) {
                let j = choose|j: int| 0 <= j < rest.len() && rest[j].1 == sbs[b.1 as int].id;
                assert(rest[j] == (tail[j].0, tail[j].1 as u64));
                assert(pairs[j + 1].1 as u64 == b.1 as u64);
                assert(pairs[j + 1].1 != pairs[0].1);
            }
        }
        rest.insert_ensures(0, (b.0, sbs[b.1 as int].id));
        let whole = spec_restore_keytasks(pairs, sbs);
        assert forall|j: int|
            0 <= j < pairs.len() implies #[trigger] whole[j] == (
            pairs[j].0,
            pairs[j].1 as u64,
        ) by {
            if j > 0 {
                assert(whole[j] == rest[j - 1]);
                assert(rest[j - 1] == (tail[j - 1].0, tail[j - 1].1 as u64));
                assert(tail[j - 1] == pairs[j]);
            }
        }
    }
}

/// Law: a well-formed registry survives the persistence round trip. Its
/// own clip records, restored against the binding records a snapshot
/// yields, rebuild every clip in order — identities re-assigned as
/// positions — and every binding, each code mapping to the same clip.
pub proof fn lemma_snapshot_restore_round_trip(
    registry: SoundRegistry,
    pairs: Seq<(KeyTaskCode, usize)>,
)
    requires
        registry.wf(),
        registry.soundbites@.len() <= u64::MAX,
        pairs.len() == registry.keytasks@.len(),
        forall|j: int|
            0 <= j < pairs.len() ==> (#[trigger] pairs[j]).0 == registry.keytasks@[j].0 && 0 <= pairs[j].1
                < registry.soundbites@.len() && registry.soundbites@[pairs[j].1 as int].id
                == registry.keytasks@[j].1,
    ensures
        ({
            let records = registry.soundbites@.map_values(|s: Soundbite| s.data);
            let sbs = spec_restore_soundbites(records);
            let kts = spec_restore_keytasks(pairs, sbs);
            &&& sbs.len() == registry.soundbites@.len()
            &&& forall|i: int|
                0 <= i < sbs.len() ==> (#[trigger] sbs[i]).data == registry.soundbites@[i].data
                    && sbs[i].id == i
            &&& kts.len() == registry.keytasks@.len()
            &&& forall|j: int|
                0 <= j < kts.len() ==> (#[trigger] kts[j]).0 == registry.keytasks@[j].0 && sbs[
                    kts[j].1 as int
                ].data.name@ == registry.soundbites@[
                    registry.index_of_id(registry.keytasks@[j].1)
                ].data.name@
        }),
{
    let records = registry.soundbites@.map_values(|s: Soundbite| s.data);
    assert(forall|i: int| 0 <= i < records.len() ==> (#[trigger] records[i]).wf());
    assert(forall|i: int, j: int|
        0 <= i < j < records.len() ==> records[i].name@ != records[j].name@);
    lemma_restore_soundbites_all_accepted(records);
    let sbs = spec_restore_soundbites(records);

    assert forall|i: int, j: int| 0 <= i < j < pairs.len() implies pairs[i].1 != pairs[j].1 by {
        if pairs[i].1 == pairs[j].1 {
            assert(registry.keytasks@[i].1 == registry.keytasks@[j].1);
        }
    }
    assert forall|i: int, j: int| 0 <= i < j < pairs.len() implies pairs[i].0 != pairs[j].0 by {
        assert(registry.keytasks@[i].0 != registry.keytasks@[j].0);
    }
    assert(forall|i: int| 0 <= i < sbs.len() ==> (#[trigger] sbs[i]).id == i);
    lemma_restore_keytasks_all_accepted(pairs, sbs);
    let kts = spec_restore_keytasks(pairs, sbs);

    assert forall|j: int|
        0 <= j < kts.len() implies (#[trigger] kts[j]).0 == registry.keytasks@[j].0 && sbs[
        kts[j].1 as int
    ].data.name@ == registry.soundbites@[
        registry.index_of_id(registry.keytasks@[j].1)
    ].data.name@ by {
        assert(kts[j] == (pairs[j].0, pairs[j].1 as u64));
        let p = pairs[j].1 as int;
        assert(sbs[p].data == registry.soundbites@[p].data);
        assert(registry.soundbites@[p].id == registry.keytasks@[j].1);
        assert(registry.has_id(registry.keytasks@[j].1));
        let w = registry.index_of_id(registry.keytasks@[j].1);
        assert(registry.soundbites@[w].id == registry.keytasks@[j].1);
        assert(w == p);
    }
}

} // verus!
