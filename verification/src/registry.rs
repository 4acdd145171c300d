//! The sound registry: every soundbite, in allocation order, plus the map
//! from key-task codes to soundbite identities.
//!
//! Identities are allocated from a monotonic counter at insertion and
//! never reused, so a binding names the same soundbite for as long as it
//! exists. The well-formedness invariant [`SoundRegistry::wf`] pins the
//! registry's shape: names unique, identities unique and below the
//! counter, every playback parameter in range, codes unique and nonzero,
//! at most one code per soundbite, and no binding left dangling.

use vstd::prelude::*;

use crate::key_task::KeyTaskCode;
use crate::soundbite::{valid_percent, Soundbite, SoundbiteData, MAX_PERCENT, MIN_PERCENT};
use crate::utils::{NewSoundbiteError, SoundManagerError, SoundbiteInfo};

verus! {

pub struct SoundRegistry {
    /// All soundbites, in allocation order.
    pub soundbites: Vec<Soundbite>,
    /// The bindings, each a (code, identity) pair.
    pub keytasks: Vec<(KeyTaskCode, u64)>,
    /// The next identity to hand out.
    pub next_id: u64,
}

impl SoundRegistry {
    /// Some soundbite carries this name.
    pub open spec fn has_name(self, name: Seq<char>) -> bool {
        exists|i: int|
            0 <= i < self.soundbites@.len() && self.soundbites@[i].data.name@ == name
    }

    /// The position of the soundbite carrying this name (unique under `wf`).
    pub open spec fn index_of_name(self, name: Seq<char>) -> int {
        choose|i: int| 0 <= i < self.soundbites@.len() && self.soundbites@[i].data.name@ == name
    }

    /// The identity of the soundbite carrying this name.
    pub open spec fn id_of_name(self, name: Seq<char>) -> u64 {
        self.soundbites@[self.index_of_name(name)].id
    }

    /// Some soundbite carries this identity.
    pub open spec fn has_id(self, id: u64) -> bool {
        exists|i: int| 0 <= i < self.soundbites@.len() && self.soundbites@[i].id == id
    }

    /// The position of the soundbite carrying this identity.
    pub open spec fn index_of_id(self, id: u64) -> int {
        choose|i: int| 0 <= i < self.soundbites@.len() && self.soundbites@[i].id == id
    }

    /// Some binding maps this code.
    pub open spec fn code_bound(self, code: KeyTaskCode) -> bool {
        exists|j: int| 0 <= j < self.keytasks@.len() && self.keytasks@[j].0 == code
    }

    /// The position of the binding of this code (unique under `wf`).
    pub open spec fn index_of_code(self, code: KeyTaskCode) -> int {
        choose|j: int| 0 <= j < self.keytasks@.len() && self.keytasks@[j].0 == code
    }

    /// The identity a code maps to, if any.
    pub open spec fn spec_lookup(self, code: KeyTaskCode) -> Option<u64> {
        if self.code_bound(code) {
            Some(self.keytasks@[self.index_of_code(code)].1)
        } else {
            None
        }
    }

    /// Some binding points at this identity.
    pub open spec fn id_has_binding(self, id: u64) -> bool {
        exists|j: int| 0 <= j < self.keytasks@.len() && self.keytasks@[j].1 == id
    }

    /// The position of the binding pointing at this identity (unique under `wf`).
    pub open spec fn binding_index_of_id(self, id: u64) -> int {
        choose|j: int| 0 <= j < self.keytasks@.len() && self.keytasks@[j].1 == id
    }

    /// The code bound to this identity, `0` when none is.
    pub open spec fn code_of_id(self, id: u64) -> KeyTaskCode {
        if self.id_has_binding(id) {
            self.keytasks@[self.binding_index_of_id(id)].0
        } else {
            0
        }
    }

    /// The well-formedness invariant; every operation preserves it.
    pub open spec fn wf(self) -> bool {
        &&& forall|i: int, j: int|
            0 <= i < j < self.soundbites@.len() ==> self.soundbites@[i].data.name@
                != self.soundbites@[j].data.name@
        &&& forall|i: int, j: int|
            0 <= i < j < self.soundbites@.len() ==> self.soundbites@[i].id
                != self.soundbites@[j].id
        &&& forall|i: int|
            0 <= i < self.soundbites@.len() ==> self.soundbites@[i].id < self.next_id
        &&& forall|i: int| 0 <= i < self.soundbites@.len() ==> self.soundbites@[i].data.wf()
        &&& forall|i: int, j: int|
            0 <= i < j < self.keytasks@.len() ==> self.keytasks@[i].0 != self.keytasks@[j].0
        &&& forall|i: int, j: int|
            0 <= i < j < self.keytasks@.len() ==> self.keytasks@[i].1 != self.keytasks@[j].1
        &&& forall|j: int| 0 <= j < self.keytasks@.len() ==> self.keytasks@[j].0 != 0
        &&& forall|j: int|
            0 <= j < self.keytasks@.len() ==> self.has_id(self.keytasks@[j].1)
    }

    /// The empty registry.
    pub fn new() -> (r: SoundRegistry)
        ensures
            r.wf(),
            r.soundbites@ =~= Seq::<Soundbite>::empty(),
            r.keytasks@ =~= Seq::<(KeyTaskCode, u64)>::empty(),
            r.next_id == 0,
    {
        SoundRegistry { soundbites: Vec::new(), keytasks: Vec::new(), next_id: 0 }
    }

    /// The position of the soundbite named `name`, if one exists.
    fn position_of_name(&self, name: &String) -> (r: Option<usize>)
        ensures
            match r {
                Some(i) => 0 <= i < self.soundbites@.len() && self.soundbites@[i as int].data.name@
                    == name@,
                None => !self.has_name(name@),
            },
    {
        let n = self.soundbites.len();
        let mut i: usize = 0;
        while i < n
            invariant
                0 <= i <= n,
                n == self.soundbites@.len(),
                forall|k: int| 0 <= k < i ==> self.soundbites@[k].data.name@ != name@,
            decreases n - i,
        {
            if self.soundbites[i].data.name == *name {
                return Some(i);
            }
            i = i + 1;
        }
        None
    }

    /// The position of the binding of `code`, if one exists.
    fn position_of_code(&self, code: KeyTaskCode) -> (r: Option<usize>)
        ensures
            match r {
                Some(j) => 0 <= j < self.keytasks@.len() && self.keytasks@[j as int].0 == code,
                None => !self.code_bound(code),
            },
    {
        let n = self.keytasks.len();
        let mut j: usize = 0;
        while j < n
            invariant
                0 <= j <= n,
                n == self.keytasks@.len(),
                forall|k: int| 0 <= k < j ==> self.keytasks@[k].0 != code,
            decreases n - j,
        {
            if self.keytasks[j].0 == code {
                return Some(j);
            }
            j = j + 1;
        }
        None
    }

    /// The position of the binding pointing at `id`, if one exists.
    fn position_of_id_binding(&self, id: u64) -> (r: Option<usize>)
        ensures
            match r {
                Some(j) => 0 <= j < self.keytasks@.len() && self.keytasks@[j as int].1 == id,
                None => !self.id_has_binding(id),
            },
    {
        let n = self.keytasks.len();
        let mut j: usize = 0;
        while j < n
            invariant
                0 <= j <= n,
                n == self.keytasks@.len(),
                forall|k: int| 0 <= k < j ==> self.keytasks@[k].1 != id,
            decreases n - j,
        {
            if self.keytasks[j].1 == id {
                return Some(j);
            }
            j = j + 1;
        }
        None
    }


    /// Whether some soundbite carries this name.
    pub fn contains_name(&self, name: &String) -> (r: bool)
        ensures
            r == self.has_name(name@),
    {
        match self.position_of_name(name) {
            Some(_) => true,
            None => false,
        }
    }

    /// The identity bound to `code`, used by the playback path.
    pub fn lookup_by_code(&self, code: KeyTaskCode) -> (r: Option<u64>)
        requires
            self.wf(),
        ensures
            r == self.spec_lookup(code),
    {
        match self.position_of_code(code) {
            Some(j) => {
                proof {
                    let w = self.index_of_code(code);
                    assert(self.keytasks@[w].0 == code);
                }
                Some(self.keytasks[j].1)
            },
            None => None,
        }
    }

    /// The soundbite carrying identity `id`, if one exists.
    pub fn soundbite_by_id(&self, id: u64) -> (r: Option<&Soundbite>)
        requires
            self.wf(),
        ensures
            match r {
                Some(s) => self.has_id(id) && *s == self.soundbites@[self.index_of_id(id)],
                None => !self.has_id(id),
            },
    {
        let n = self.soundbites.len();
        let mut i: usize = 0;
        while i < n
            invariant
                0 <= i <= n,
                n == self.soundbites@.len(),
                forall|k: int| 0 <= k < i ==> self.soundbites@[k].id != id,
                self.wf(),
            decreases n - i,
        {
            if self.soundbites[i].id == id {
                proof {
                    let w = self.index_of_id(id);
                    assert(self.soundbites@[w].id == id);
                    assert(w == i);
                }
                return Some(&self.soundbites[i]);
            }
            i = i + 1;
        }
        None
    }

    /// The names of all soundbites, in allocation order.
    pub fn get_soundbites(&self) -> (r: Vec<String>)
        ensures
            r@.len() == self.soundbites@.len(),
            forall|i: int| 0 <= i < r@.len() ==> r@[i]@ == self.soundbites@[i].data.name@,
    {
        let n = self.soundbites.len();
        let mut names: Vec<String> = Vec::new();
        let mut i: usize = 0;
        while i < n
            invariant
                0 <= i <= n,
                n == self.soundbites@.len(),
                names@.len() == i,
                forall|k: int| 0 <= k < i ==> names@[k]@ == self.soundbites@[k].data.name@,
            decreases n - i,
        {
            names.push(self.soundbites[i].data.name.clone());
            i = i + 1;
        }
        names
    }

    /// What a caller learns about the soundbite named `name`: its
    /// parameters and its bound code (`0` when unbound).
    pub fn get_soundbite(&self, name: &String) -> (r: Result<SoundbiteInfo, SoundManagerError>)
        requires
            self.wf(),
        ensures
            r is Ok <==> self.has_name(name@),
            r matches Ok(info) ==> {
                let s = self.soundbites@[self.index_of_name(name@)];
                &&& info.name@ == name@
                &&& info.volume == s.data.volume
                &&& info.speed == s.data.speed
                &&& info.keycode == self.code_of_id(s.id)
            },
            r matches Err(e) ==> e matches SoundManagerError::SoundbiteNotFound(n) && n@ == name@,
    {
        match self.position_of_name(name) {
            Some(i) => {
                proof {
                    let w = self.index_of_name(name@);
                    assert(self.soundbites@[w].data.name@ == name@);
                    assert(w == i);
                }
                let s = &self.soundbites[i];
                let keycode = match self.position_of_id_binding(s.id) {
                    Some(j) => {
                        proof {
                            let w = self.binding_index_of_id(s.id);
                            assert(self.keytasks@[w].1 == s.id);
                            assert(w == j);
                        }
                        self.keytasks[j].0
                    },
                    None => 0,
                };
                Ok(
                    SoundbiteInfo {
                        name: s.data.name.clone(),
                        volume: s.data.volume,
                        speed: s.data.speed,
                        keycode,
                    },
                )
            },
            None => Err(SoundManagerError::SoundbiteNotFound(name.clone())),
        }
    }

    /// Inserts a new soundbite under a fresh identity.
    ///
    /// Fails with `NameUsed` when the name already names a soundbite, and
    /// with `FailOnCreate` when no further identity can be allocated; a
    /// failed insertion leaves the registry untouched.
    pub fn add_soundbite(&mut self, data: SoundbiteData) -> (r: Result<u64, SoundManagerError>)
        requires
            old(self).wf(),
            data.wf(),
        ensures
            final(self).wf(),
            r is Ok <==> !old(self).has_name(data.name@) && old(self).next_id < u64::MAX,
            r matches Ok(id) ==> id == old(self).next_id && spec_added(
                *old(self),
                *final(self),
                data,
            ),
            r is Err ==> *final(self) == *old(self),
            old(self).has_name(data.name@) ==> (r matches Err(
                SoundManagerError::NewSoundbiteError(NewSoundbiteError::NameUsed(n)),
            ) && n@ == data.name@),
            !old(self).has_name(data.name@) && old(self).next_id == u64::MAX ==> r matches Err(
                SoundManagerError::NewSoundbiteError(NewSoundbiteError::FailOnCreate),
            ),
    {
        match self.position_of_name(&data.name) {
            Some(_) => Err(
                SoundManagerError::NewSoundbiteError(NewSoundbiteError::NameUsed(data.name)),
            ),
            None => {
                if self.next_id == u64::MAX {
                    return Err(
                        SoundManagerError::NewSoundbiteError(NewSoundbiteError::FailOnCreate),
                    );
                }
                let id = self.next_id;
                let ghost pre = *self;
                self.next_id = id + 1;
                self.soundbites.push(Soundbite { id, data });
                proof {
                    let post = *self;
                    let n = pre.soundbites@.len() as int;
                    assert forall|j: int|
                        0 <= j < post.keytasks@.len() implies post.has_id(
                        post.keytasks@[j].1,
                    ) by {
                        assert(pre.has_id(pre.keytasks@[j].1));
                        let w = choose|i: int|
                            0 <= i < pre.soundbites@.len() && pre.soundbites@[i].id
                                == pre.keytasks@[j].1;
                        assert(post.soundbites@[w].id == post.keytasks@[j].1);
                    }
                }
                Ok(id)
            },
        }
    }

    /// Removes the soundbite named `name` together with any binding
    /// pointing at it, so that no binding dangles and a lookup of its
    /// formerly bound code finds nothing.
    ///
    /// Fails with `SoundbiteNotFound` when no soundbite carries the name,
    /// leaving the registry untouched.
    pub fn remove_soundbite(&mut self, name: &String) -> (r: Result<(), SoundManagerError>)
        requires
            old(self).wf(),
        ensures
            final(self).wf(),
            r is Ok <==> old(self).has_name(name@),
            r is Err ==> *final(self) == *old(self),
            r matches Err(e) ==> e matches SoundManagerError::SoundbiteNotFound(n) && n@ == name@,
            r is Ok ==> spec_removed(*old(self), *final(self), name@),
            r is Ok ==> !final(self).has_name(name@),
            r is Ok ==> forall|c: KeyTaskCode|
                old(self).spec_lookup(c) == Some(old(self).id_of_name(name@))
                    ==> final(self).spec_lookup(c) is None,
    {
        match self.position_of_name(name) {
            Some(i) => {
                proof {
                    let w = self.index_of_name(name@);
                    assert(self.soundbites@[w].data.name@ == name@);
                    assert(w == i);
                }
                let id = self.soundbites[i].id;
                let ghost pre = *self;
                match self.position_of_id_binding(id) {
                    Some(j) => {
                        self.keytasks.remove(j);
                        proof {
                            assert(pre.binding_index_of_id(id) == j);
                        }
                    },
                    None => {},
                }
                let ghost mid = *self;
                self.soundbites.remove(i);
                proof {
                    let post = *self;
                    // Identity `id` is gone from the bindings.
                    assert forall|k: int|
                        0 <= k < post.keytasks@.len() implies post.keytasks@[k].1 != id by {
                        if pre.id_has_binding(id) {
                            let j = pre.binding_index_of_id(id);
                            if k < j {
                                assert(post.keytasks@[k] == pre.keytasks@[k]);
                            } else {
                                assert(post.keytasks@[k] == pre.keytasks@[k + 1]);
                            }
                        }
                    }
                    // Every surviving binding still points at a soundbite.
                    assert forall|k: int|
                        0 <= k < post.keytasks@.len() implies post.has_id(
                        post.keytasks@[k].1,
                    ) by {
                        let bid = post.keytasks@[k].1;
                        assert(pre.id_has_binding(bid));
                        assert(pre.has_id(bid));
                        let w = pre.index_of_id(bid);
                        assert(pre.soundbites@[w].id == bid);
                        assert(bid != id);
                        assert(w != i);
                        if w < i {
                            assert(post.soundbites@[w].id == bid);
                        } else {
                            assert(post.soundbites@[w - 1].id == bid);
                        }
                    }
                    // No soundbite carries the removed name any more.
                    assert forall|k: int|
                        0 <= k < post.soundbites@.len() implies post.soundbites@[k].data.name@
                        != name@ by {
                        if k < i {
                            assert(post.soundbites@[k] == pre.soundbites@[k]);
                        } else {
                            assert(post.soundbites@[k] == pre.soundbites@[k + 1]);
                        }
                    }
                    // A code bound to the removed soundbite is bound no more.
                    assert forall|c: KeyTaskCode|
                        pre.spec_lookup(c) == Some(id) implies post.spec_lookup(c) is None by {
                        if pre.code_bound(c) {
                            let j = pre.index_of_code(c);
                            assert(pre.keytasks@[j].1 == id);
                            assert(pre.id_has_binding(id));
                            assert(pre.binding_index_of_id(id) == j);
                            if post.code_bound(c) {
                                let k = post.index_of_code(c);
                                assert(post.keytasks@[k].0 == c);
                                if k < j {
                                    assert(post.keytasks@[k] == pre.keytasks@[k]);
                                    assert(pre.keytasks@[k].0 == c);
                                    assert(false);
                                } else {
                                    assert(post.keytasks@[k] == pre.keytasks@[k + 1]);
                                    assert(pre.keytasks@[k + 1].0 == c);
                                    assert(false);
                                }
                            }
                        }
                    }
                }
                Ok(())
            },
            None => Err(SoundManagerError::SoundbiteNotFound(name.clone())),
        }
    }

    /// Renames a soundbite.
    ///
    /// Fails with `SoundbiteAlreadyExists` when the new name is already
    /// taken (also when it is the soundbite's own current name), and with
    /// `SoundbiteNotFound` when no soundbite carries `name`; a failed
    /// rename leaves the registry untouched.
    pub fn set_name(&mut self, name: &String, new_name: String) -> (r: Result<
        (),
        SoundManagerError,
    >)
        requires
            old(self).wf(),
        ensures
            final(self).wf(),
            r is Ok <==> !old(self).has_name(new_name@) && old(self).has_name(name@),
            r is Err ==> *final(self) == *old(self),
            old(self).has_name(new_name@) ==> (r matches Err(
                SoundManagerError::SoundbiteAlreadyExists(n),
            ) && n@ == new_name@),
            !old(self).has_name(new_name@) && !old(self).has_name(name@) ==> (r matches Err(
                SoundManagerError::SoundbiteNotFound(n),
            ) && n@ == name@),
            r is Ok ==> spec_renamed(*old(self), *final(self), name@, new_name),
    {
        match self.position_of_name(&new_name) {
            Some(_) => Err(SoundManagerError::SoundbiteAlreadyExists(new_name)),
            None => {
                match self.position_of_name(name) {
                    Some(i) => {
                        proof {
                            let w = self.index_of_name(name@);
                            assert(self.soundbites@[w].data.name@ == name@);
                            assert(w == i);
                        }
                        let ghost pre = *self;
                        self.soundbites[i].data.name = new_name;
                        proof {
                            let post = *self;
                            assert forall|j: int|
                                0 <= j < post.keytasks@.len() implies post.has_id(
                                post.keytasks@[j].1,
                            ) by {
                                assert(pre.has_id(pre.keytasks@[j].1));
                                let w = pre.index_of_id(pre.keytasks@[j].1);
                                assert(post.soundbites@[w].id == post.keytasks@[j].1);
                            }
                        }
                        Ok(())
                    },
                    None => Err(SoundManagerError::SoundbiteNotFound(name.clone())),
                }
            },
        }
    }

    /// Sets a soundbite's volume, taken by its next play.
    ///
    /// Fails with `InvalidVolumeValue` when the volume lies outside
    /// `(0, 200]` — also when no soundbite carries `name` — and with
    /// `SoundbiteNotFound` when the volume is in range but the name is
    /// unknown; a failed call leaves the registry untouched.
    pub fn set_volume(&mut self, name: &String, volume: u32) -> (r: Result<
        (),
        SoundManagerError,
    >)
        requires
            old(self).wf(),
        ensures
            final(self).wf(),
            r is Ok <==> valid_percent(volume) && old(self).has_name(name@),
            r is Err ==> *final(self) == *old(self),
            !valid_percent(volume) ==> r == Err::<(), SoundManagerError>(SoundManagerError::InvalidVolumeValue),
            valid_percent(volume) && !old(self).has_name(name@) ==> (r matches Err(
                SoundManagerError::SoundbiteNotFound(n),
            ) && n@ == name@),
            r is Ok ==> spec_volume_set(*old(self), *final(self), name@, volume),
    {
        if volume < MIN_PERCENT || volume > MAX_PERCENT {
            return Err(SoundManagerError::InvalidVolumeValue);
        }
        match self.position_of_name(name) {
            Some(i) => {
                proof {
                    let w = self.index_of_name(name@);
                    assert(self.soundbites@[w].data.name@ == name@);
                    assert(w == i);
                }
                let ghost pre = *self;
                self.soundbites[i].set_volume(volume);
                proof {
                    let post = *self;
                    assert forall|j: int|
                        0 <= j < post.keytasks@.len() implies post.has_id(
                        post.keytasks@[j].1,
                    ) by {
                        assert(pre.has_id(pre.keytasks@[j].1));
                        let w = pre.index_of_id(pre.keytasks@[j].1);
                        assert(post.soundbites@[w].id == post.keytasks@[j].1);
                    }
                }
                Ok(())
            },
            None => Err(SoundManagerError::SoundbiteNotFound(name.clone())),
        }
    }

    /// Sets a soundbite's speed, taken by its next play.
    ///
    /// Fails with `InvalidSpeedValue` when the speed lies outside
    /// `(0, 200]` — also when no soundbite carries `name` — and with
    /// `SoundbiteNotFound` when the speed is in range but the name is
    /// unknown; a failed call leaves the registry untouched.
    pub fn set_speed(&mut self, name: &String, speed: u32) -> (r: Result<(), SoundManagerError>)
        requires
            old(self).wf(),
        ensures
            final(self).wf(),
            r is Ok <==> valid_percent(speed) && old(self).has_name(name@),
            r is Err ==> *final(self) == *old(self),
            !valid_percent(speed) ==> r == Err::<(), SoundManagerError>(SoundManagerError::InvalidSpeedValue),
            valid_percent(speed) && !old(self).has_name(name@) ==> (r matches Err(
                SoundManagerError::SoundbiteNotFound(n),
            ) && n@ == name@),
            r is Ok ==> spec_speed_set(*old(self), *final(self), name@, speed),
    {
        if speed < MIN_PERCENT || speed > MAX_PERCENT {
            return Err(SoundManagerError::InvalidSpeedValue);
        }
        match self.position_of_name(name) {
            Some(i) => {
                proof {
                    let w = self.index_of_name(name@);
                    assert(self.soundbites@[w].data.name@ == name@);
                    assert(w == i);
                }
                let ghost pre = *self;
                self.soundbites[i].set_speed(speed);
                proof {
                    let post = *self;
                    assert forall|j: int|
                        0 <= j < post.keytasks@.len() implies post.has_id(
                        post.keytasks@[j].1,
                    ) by {
                        assert(pre.has_id(pre.keytasks@[j].1));
                        let w = pre.index_of_id(pre.keytasks@[j].1);
                        assert(post.soundbites@[w].id == post.keytasks@[j].1);
                    }
                }
                Ok(())
            },
            None => Err(SoundManagerError::SoundbiteNotFound(name.clone())),
        }
    }

    /// Binds a key code to the soundbite named `name`, replacing that
    /// soundbite's previous binding if it had one, so that a soundbite has
    /// at most one active code. Re-linking a soundbite to the code it
    /// already holds succeeds and leaves it bound.
    ///
    /// Fails with `InvalidKeyCode` for the reserved code `0` — also when
    /// the name is unknown — with `SoundbiteNotFound` when the code is
    /// acceptable but no soundbite carries `name`, and with `KeyTaskUsed`
    /// when the code is bound to a different soundbite — in that case the
    /// earlier binding stands; a failed call leaves the registry
    /// untouched.
    pub fn set_keytask_code(&mut self, name: &String, keytask_code: KeyTaskCode) -> (r: Result<
        (),
        SoundManagerError,
    >)
        requires
            old(self).wf(),
        ensures
            final(self).wf(),
            r is Ok <==> (old(self).has_name(name@) && keytask_code != 0 && (old(self).spec_lookup(
                keytask_code,
            ) is None || old(self).spec_lookup(keytask_code) == Some(old(self).id_of_name(name@)))),
            r is Err ==> *final(self) == *old(self),
            keytask_code == 0 ==> r == Err::<(), SoundManagerError>(
                SoundManagerError::InvalidKeyCode,
            ),
            keytask_code != 0 && !old(self).has_name(name@) ==> (r matches Err(
                SoundManagerError::SoundbiteNotFound(n),
            ) && n@ == name@),
            old(self).has_name(name@) && keytask_code != 0 && (old(self).spec_lookup(
                keytask_code,
            ) matches Some(b) && b != old(self).id_of_name(name@)) ==> r == Err::<
                (),
                SoundManagerError,
            >(SoundManagerError::KeyTaskUsed(keytask_code)),
            r is Ok ==> spec_linked(*old(self), *final(self), name@, keytask_code),
            r is Ok ==> final(self).spec_lookup(keytask_code) == Some(old(self).id_of_name(name@)),
    {
        if keytask_code == 0 {
            return Err(SoundManagerError::InvalidKeyCode);
        }
        match self.position_of_name(name) {
            None => Err(SoundManagerError::SoundbiteNotFound(name.clone())),
            Some(i) => {
                proof {
                    let w = self.index_of_name(name@);
                    assert(self.soundbites@[w].data.name@ == name@);
                    assert(w == i);
                }
                let id = self.soundbites[i].id;
                match self.position_of_code(keytask_code) {
                    Some(j) => {
                        proof {
                            let w = self.index_of_code(keytask_code);
                            assert(self.keytasks@[w].0 == keytask_code);
                            assert(w == j);
                        }
                        if self.keytasks[j].1 != id {
                            return Err(SoundManagerError::KeyTaskUsed(keytask_code));
                        }
                    },
                    None => {},
                }
                let ghost pre = *self;
                match self.position_of_id_binding(id) {
                    Some(j2) => {
                        proof {
                            let w = self.binding_index_of_id(id);
                            assert(self.keytasks@[w].1 == id);
                            assert(w == j2);
                        }
                        self.keytasks.remove(j2);
                    },
                    None => {},
                }
                let ghost rem = self.keytasks@;
                proof {
                    // After dropping the soundbite's own binding, neither
                    // the code nor the identity occurs among the bindings.
                    if pre.id_has_binding(id) {
                        let j2 = pre.binding_index_of_id(id);
                        assert forall|k: int| 0 <= k < rem.len() implies rem[k].1 != id
                            && rem[k].0 != keytask_code by {
                            if k < j2 {
                                assert(rem[k] == pre.keytasks@[k]);
                            } else {
                                assert(rem[k] == pre.keytasks@[k + 1]);
                            }
                            if rem[k].0 == keytask_code {
                                assert(pre.code_bound(keytask_code));
                                let jc = pre.index_of_code(keytask_code);
                                assert(pre.keytasks@[jc].1 == id);
                                assert(jc == j2);
                            }
                        }
                    } else {
                        assert forall|k: int| 0 <= k < rem.len() implies rem[k].1 != id
                            && rem[k].0 != keytask_code by {
                            if rem[k].0 == keytask_code {
                                assert(pre.code_bound(keytask_code));
                                let jc = pre.index_of_code(keytask_code);
                                assert(pre.keytasks@[jc].1 == id);
                            }
                        }
                    }
                }
                self.keytasks.push((keytask_code, id));
                proof {
                    let post = *self;
                    let last = rem.len() as int;
                    assert forall|k: int|
                        0 <= k < post.keytasks@.len() implies post.has_id(
                        post.keytasks@[k].1,
                    ) by {
                        if k < last {
                            let bid = post.keytasks@[k].1;
                            assert(pre.id_has_binding(bid)) by {
                                if pre.id_has_binding(id) {
                                    let j2 = pre.binding_index_of_id(id);
                                    if k < j2 {
                                        assert(rem[k] == pre.keytasks@[k]);
                                    } else {
                                        assert(rem[k] == pre.keytasks@[k + 1]);
                                    }
                                }
                            }
                            let jb = choose|j: int|
                                0 <= j < pre.keytasks@.len() && pre.keytasks@[j].1 == bid;
                            assert(pre.has_id(bid));
                            let w = pre.index_of_id(bid);
                            assert(post.soundbites@[w].id == bid);
                        } else {
                            assert(post.keytasks@[k].1 == id);
                            assert(post.soundbites@[i as int].id == id);
                        }
                    }
                    // The fresh binding is the one a lookup of the code finds.
                    assert(post.keytasks@[last] == (keytask_code, id));
                    assert(post.code_bound(keytask_code));
                    let w = post.index_of_code(keytask_code);
                    assert(post.keytasks@[w].0 == keytask_code);
                    if w != last {
                        assert(rem[w].0 == keytask_code);
                    }
                    assert(post.spec_lookup(keytask_code) == Some(id));
                }
                Ok(())
            },
        }
    }

    /// Drops any binding pointing at the soundbite named `name`; a no-op
    /// when there is none, or when no soundbite carries the name. Always
    /// succeeds.
    pub fn remove_keytask_code(&mut self, name: &String) -> (r: Result<(), SoundManagerError>)
        requires
            old(self).wf(),
        ensures
            final(self).wf(),
            r is Ok,
            spec_unlinked(*old(self), *final(self), name@),
            old(self).has_name(name@) ==> !final(self).id_has_binding(old(self).id_of_name(name@)),
    {
        match self.position_of_name(name) {
            Some(i) => {
                proof {
                    let w = self.index_of_name(name@);
                    assert(self.soundbites@[w].data.name@ == name@);
                    assert(w == i);
                }
                let id = self.soundbites[i].id;
                let ghost pre = *self;
                match self.position_of_id_binding(id) {
                    Some(j) => {
                        proof {
                            let w = self.binding_index_of_id(id);
                            assert(self.keytasks@[w].1 == id);
                            assert(w == j);
                        }
                        self.keytasks.remove(j);
                        proof {
                            let post = *self;
                            assert forall|k: int|
                                0 <= k < post.keytasks@.len() implies post.keytasks@[k].1 != id
                                && post.has_id(post.keytasks@[k].1) by {
                                if k < j {
                                    assert(post.keytasks@[k] == pre.keytasks@[k]);
                                } else {
                                    assert(post.keytasks@[k] == pre.keytasks@[k + 1]);
                                }
                                assert(pre.id_has_binding(post.keytasks@[k].1));
                                assert(pre.has_id(post.keytasks@[k].1));
                                let w2 = pre.index_of_id(post.keytasks@[k].1);
                                assert(post.soundbites@[w2].id == post.keytasks@[k].1);
                            }
                        }
                    },
                    None => {},
                }
                Ok(())
            },
            None => Ok(()),
        }
    }
}

/// In a well-formed registry at most one soundbite carries a given name:
/// two positions with the same name are the same position.
pub proof fn lemma_name_unique(r: SoundRegistry, i: int, j: int)
    requires
        r.wf(),
        0 <= i < r.soundbites@.len(),
        0 <= j < r.soundbites@.len(),
        r.soundbites@[i].data.name@ == r.soundbites@[j].data.name@,
    ensures
        i == j,
{
}

/// `post` is `pre` with `data` inserted under the fresh identity
/// `pre.next_id`.
pub open spec fn spec_added(pre: SoundRegistry, post: SoundRegistry, data: SoundbiteData) -> bool {
    &&& post.soundbites@ == pre.soundbites@.push(Soundbite { id: pre.next_id, data })
    &&& post.keytasks@ == pre.keytasks@
    &&& post.next_id == pre.next_id + 1
}

/// `post` is `pre` with the soundbite named `name` removed, together with
/// the binding pointing at it, if it had one.
pub open spec fn spec_removed(pre: SoundRegistry, post: SoundRegistry, name: Seq<char>) -> bool {
    let i = pre.index_of_name(name);
    let id = pre.soundbites@[i].id;
    &&& post.soundbites@ == pre.soundbites@.remove(i)
    &&& post.keytasks@ == (if pre.id_has_binding(id) {
        pre.keytasks@.remove(pre.binding_index_of_id(id))
    } else {
        pre.keytasks@
    })
    &&& post.next_id == pre.next_id
}

/// `post` is `pre` with the soundbite named `name` renamed to `new_name`.
pub open spec fn spec_renamed(
    pre: SoundRegistry,
    post: SoundRegistry,
    name: Seq<char>,
    new_name: String,
) -> bool {
    let i = pre.index_of_name(name);
    let s = pre.soundbites@[i];
    &&& post.soundbites@ == pre.soundbites@.update(
        i,
        Soundbite { data: SoundbiteData { name: new_name, ..s.data }, ..s },
    )
    &&& post.keytasks@ == pre.keytasks@
    &&& post.next_id == pre.next_id
}

/// `post` is `pre` with the volume of the soundbite named `name` set.
pub open spec fn spec_volume_set(
    pre: SoundRegistry,
    post: SoundRegistry,
    name: Seq<char>,
    volume: u32,
) -> bool {
    let i = pre.index_of_name(name);
    let s = pre.soundbites@[i];
    &&& post.soundbites@ == pre.soundbites@.update(
        i,
        Soundbite { data: SoundbiteData { volume, ..s.data }, ..s },
    )
    &&& post.keytasks@ == pre.keytasks@
    &&& post.next_id == pre.next_id
}

/// `post` is `pre` with the speed of the soundbite named `name` set.
pub open spec fn spec_speed_set(
    pre: SoundRegistry,
    post: SoundRegistry,
    name: Seq<char>,
    speed: u32,
) -> bool {
    let i = pre.index_of_name(name);
    let s = pre.soundbites@[i];
    &&& post.soundbites@ == pre.soundbites@.update(
        i,
        Soundbite { data: SoundbiteData { speed, ..s.data }, ..s },
    )
    &&& post.keytasks@ == pre.keytasks@
    &&& post.next_id == pre.next_id
}

/// `post` is `pre` with `code` bound to the soundbite named `name`, that
/// soundbite's prior binding dropped.
pub open spec fn spec_linked(
    pre: SoundRegistry,
    post: SoundRegistry,
    name: Seq<char>,
    code: KeyTaskCode,
) -> bool {
    let id = pre.id_of_name(name);
    &&& post.soundbites@ == pre.soundbites@
    &&& post.next_id == pre.next_id
    &&& post.keytasks@ == (if pre.id_has_binding(id) {
        pre.keytasks@.remove(pre.binding_index_of_id(id))
    } else {
        pre.keytasks@
    }).push((code, id))
}

/// `post` is `pre` with any binding of the soundbite named `name` dropped;
/// `pre` itself when it has none, or when no soundbite carries the name.
pub open spec fn spec_unlinked(pre: SoundRegistry, post: SoundRegistry, name: Seq<char>) -> bool {
    &&& post.soundbites@ == pre.soundbites@
    &&& post.next_id == pre.next_id
    &&& post.keytasks@ == (if pre.has_name(name) && pre.id_has_binding(pre.id_of_name(name)) {
        pre.keytasks@.remove(pre.binding_index_of_id(pre.id_of_name(name)))
    } else {
        pre.keytasks@
    })
}

} // verus!
