//! A model of the on-disk wallpaper cache: the set of date keys that have
//! a cached image file. One file per date key, so the contents are a set.

use vstd::prelude::*;

verus! {

/// The date keys whose wallpaper file is present in the cache directory.
pub struct Cache {
    keys: Vec<String>,
}

impl View for Cache {
    type V = Set<Seq<char>>;

    closed spec fn view(&self) -> Set<Seq<char>> {
        Set::new(|k: Seq<char>| exists|i: int| 0 <= i < self.keys@.len() && self.keys@[i]@ == k)
    }
}

impl Cache {
    /// An empty cache: no date key has a file.
    pub fn new() -> (r: Cache)
        ensures
            r@ == Set::<Seq<char>>::empty(),
    {
        let r = Cache { keys: Vec::new() };
        proof {
            assert(r@ =~= Set::<Seq<char>>::empty());
        }
        r
    }

    /// A cache holding exactly the given date keys.
    pub fn from_keys(keys: Vec<String>) -> (r: Cache)
        ensures
            forall|k: Seq<char>|
                r@.contains(k) <==> exists|i: int| 0 <= i < keys@.len() && keys@[i]@ == k,
    {
        Cache { keys }
    }

    /// Whether a wallpaper file for `date` is cached.
    pub fn has_wallpaper_for_date(&self, date: &String) -> (r: bool)
        ensures
            r == self@.contains(date@),
    {
        let mut i: usize = 0;
        while i < self.keys.len()
            invariant
                0 <= i <= self.keys@.len(),
                forall|j: int| 0 <= j < i ==> #[trigger] self.keys@[j]@ != date@,
            decreases self.keys@.len() - i,
        {
            if self.keys[i] == *date {
                proof {
                    assert(self.keys@[i as int]@ == date@);
                }
                return true;
            }
            i += 1;
        }
        proof {
            assert(!self@.contains(date@));
        }
        false
    }

    /// Records that a wallpaper file for `date` was saved.
    pub fn record_saved(&mut self, date: &String)
        ensures
            final(self)@ == old(self)@.insert(date@),
    {
        if self.has_wallpaper_for_date(date) {
            proof {
                assert(self@ =~= old(self)@.insert(date@));
            }
        } else {
            self.keys.push(date.clone());
            proof {
                assert forall|k: Seq<char>| self@.contains(k) implies old(self)@.insert(
                    date@,
                ).contains(k) by {
                    let i = choose|i: int| 0 <= i < self.keys@.len() && self.keys@[i]@ == k;
                    if i < self.keys@.len() - 1 {
                        assert(old(self).keys@[i]@ == k);
                    }
                }
                assert forall|k: Seq<char>| old(self)@.insert(date@).contains(k) implies
                    self@.contains(k) by {
                    if old(self)@.contains(k) {
                        let i = choose|i: int|
                            0 <= i < old(self).keys@.len() && old(self).keys@[i]@ == k;
                        assert(self.keys@[i]@ == k);
                    } else {
                        assert(self.keys@[self.keys@.len() - 1]@ == k);
                    }
                }
                assert(self@ =~= old(self)@.insert(date@));
            }
        }
    }

    /// Removes the wallpaper file entry for `date`, if any. Removing an
    /// absent key changes nothing.
    pub fn evict(&mut self, date: &String)
        ensures
            final(self)@ == old(self)@.remove(date@),
    {
        let mut kept: Vec<String> = Vec::new();
        let mut i: usize = 0;
        while i < self.keys.len()
            invariant
                0 <= i <= self.keys@.len(),
                self.keys@ == old(self).keys@,
                forall|j: int| 0 <= j < kept@.len() ==> #[trigger] kept@[j]@ != date@,
                forall|j: int|
                    0 <= j < kept@.len() ==> exists|l: int|
                        0 <= l < i && self.keys@[l]@ == #[trigger] kept@[j]@,
                forall|l: int|
                    0 <= l < i && #[trigger] self.keys@[l]@ != date@ ==> exists|j: int|
                        0 <= j < kept@.len() && kept@[j]@ == self.keys@[l]@,
            decreases self.keys@.len() - i,
        {
            let ghost kept_before = kept@;
            let matched = self.keys[i] == *date;
            if !matched {
                kept.push(self.keys[i].clone());
            }
            proof {
                assert forall|l: int|
                    0 <= l <= i as int && #[trigger] self.keys@[l]@ != date@ implies exists|j: int|
                    0 <= j < kept@.len() && kept@[j]@ == self.keys@[l]@ by {
                    if l < i as int {
                        let j = choose|j: int|
                            0 <= j < kept_before.len() && kept_before[j]@ == self.keys@[l]@;
                        assert(kept@[j]@ == self.keys@[l]@);
                    } else {
                        assert(kept@[kept@.len() - 1]@ == self.keys@[l]@);
                    }
                }
            }
            i += 1;
        }
        self.keys = kept;
        proof {
            assert forall|k: Seq<char>| self@.contains(k) implies old(self)@.remove(
                date@,
            ).contains(k) by {
                let j = choose|j: int| 0 <= j < self.keys@.len() && self.keys@[j]@ == k;
                let l = choose|l: int|
                    0 <= l < old(self).keys@.len() && old(self).keys@[l]@ == self.keys@[j]@;
                assert(old(self).keys@[l]@ == k);
            }
            assert forall|k: Seq<char>| old(self)@.remove(date@).contains(k) implies
                self@.contains(k) by {
                let l = choose|l: int|
                    0 <= l < old(self).keys@.len() && old(self).keys@[l]@ == k;
                assert(exists|j: int| 0 <= j < self.keys@.len() && self.keys@[j]@ == k);
            }
            assert(self@ =~= old(self)@.remove(date@));
        }
    }
}

/// The cache file name for a date key: the key with the image extension.
pub fn wallpaper_file_name(date: &String) -> (r: String)
    ensures
        r@ == date@ + ".jpg"@,
{
    let s = date.clone();
    s.concat(".jpg")
}

/// After a run that saves today's image and then evicts yesterday's,
/// today's key is cached, yesterday's is not, and every other key is as it
/// was before — whatever the cache held.
pub proof fn lemma_save_evict_outcome(s: Set<Seq<char>>, today: Seq<char>, yesterday: Seq<char>)
    requires
        today != yesterday,
    ensures
        s.insert(today).remove(yesterday).contains(today),
        !s.insert(today).remove(yesterday).contains(yesterday),
        forall|k: Seq<char>|
            k != today && k != yesterday ==> #[trigger] s.insert(today).remove(
                yesterday,
            ).contains(k) == s.contains(k),
{
}

/// Eviction is idempotent on the cache contents: removing a date key twice
/// leaves the same cache as removing it once, and removing a key that is
/// not cached leaves the cache unchanged.
pub proof fn lemma_evict_idempotent(s: Set<Seq<char>>, k: Seq<char>)
    ensures
        s.remove(k).remove(k) == s.remove(k),
        !s.contains(k) ==> s.remove(k) == s,
{
    assert(s.remove(k).remove(k) =~= s.remove(k));
    if !s.contains(k) {
        assert(s.remove(k) =~= s);
    }
}

} // verus!
