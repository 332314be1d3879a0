//! The artifact cache: what was generated once for a key is kept and
//! handed out again, and what is being generated for a key is generated
//! by one caller only while the others wait for it.

pub mod artifact;

use crate::cache::artifact::Key;
use crate::cache::artifact::KeyView;
use crate::cache::artifact::Storable;
use crate::error::Failure;
use crate::paths::join;
use crate::paths::joined;
use crate::text::concat3;
use crate::text::decimal;
use crate::text::decimal_text;
use vstd::prelude::*;
use vstd::string::*;

verus! {

/// What the cache tells a caller who asks for the entry of a key.
#[derive(Debug, Clone, Copy, PartialEq, Eq, Structural)]
pub enum Step {
    /// The entry is there: adapt it. Nothing is generated.
    Adapt,
    /// Another caller is generating the entry: wait for that generation and
    /// take its result.
    Await,
    /// The entry is not there and nobody is generating it: generate it.
    /// The caller is now the one who does.
    Generate,
}

/// What the one who generated an entry does with the outcome.
#[derive(Debug)]
pub enum Completion<M> {
    /// Write the metadata beside the output, which marks the entry
    /// complete, and adapt the entry.
    Persist(M),
    /// Hand the failure on; the entry stays incomplete.
    Propagate(Failure),
}

/// What is to be known of the cache: for which keys an entry is being
/// generated, and for which one is known to be complete.
pub struct CacheView {
    pub root: Seq<char>,
    pub in_flight: Set<KeyView>,
    pub complete: Set<KeyView>,
}

/// Whether a list of keys holds one with the given view.
pub open spec fn holds_key(keys: Seq<Key>, key: KeyView) -> bool {
    exists|i: int| 0 <= i < keys.len() && (#[trigger] keys[i])@ == key
}

/// The registry of the cache. It is the only thing that concurrent
/// operations share and change: each of its methods runs as one step.
pub struct Cache {
    /// Directory under which the entries are stored.
    root: String,
    in_flight: Vec<Key>,
    complete: Vec<Key>,
}

impl View for Cache {
    type V = CacheView;

    closed spec fn view(&self) -> CacheView {
        CacheView {
            root: self.root@,
            in_flight: Set::new(|key: KeyView| holds_key(self.in_flight@, key)),
            complete: Set::new(|key: KeyView| holds_key(self.complete@, key)),
        }
    }
}

impl CacheView {
    /// What a caller who asks for the entry of `key` is told; `stored`
    /// says whether the disk holds a complete entry for the key.
    pub open spec fn step_for(self, key: KeyView, stored: bool) -> Step {
        if stored || self.complete.contains(key) {
            Step::Adapt
        } else if self.in_flight.contains(key) {
            Step::Await
        } else {
            Step::Generate
        }
    }

    /// The registry after a caller has asked for the entry of `key`: the
    /// key is in flight from then on if the caller was told to generate.
    pub open spec fn after_request(self, key: KeyView, stored: bool) -> CacheView {
        if self.step_for(key, stored) == Step::Generate {
            CacheView { in_flight: self.in_flight.insert(key), ..self }
        } else {
            self
        }
    }

    /// The registry after the generation for `key` has ended: the key is no
    /// longer in flight, and it is complete if and only if it was before or
    /// the generation succeeded.
    pub open spec fn after_completion(self, key: KeyView, success: bool) -> CacheView {
        CacheView {
            root: self.root,
            in_flight: self.in_flight.remove(key),
            complete: if success {
                self.complete.insert(key)
            } else {
                self.complete
            },
        }
    }
}

/// Looks a key up in a list of keys.
fn position_of(keys: &Vec<Key>, key: &Key) -> (found: Option<usize>)
    ensures
        match found {
            Some(at) => at < keys@.len() && keys@[at as int]@ == key@,
            None => !holds_key(keys@, key@),
        },
{
    let mut i: usize = 0;
    while i < keys.len()
        invariant
            i <= keys.len(),
            forall|j: int| 0 <= j < i ==> (#[trigger] keys@[j])@ != key@,
        decreases keys.len() - i,
    {
        if keys[i].same_as(key) {
            return Some(i);
        }
        i += 1;
    }
    None
}

impl Cache {
    /// An empty registry for the entries under `root`.
    pub fn new(root: &str) -> (cache: Self)
        ensures
            cache@.root == root@,
            cache@.in_flight == Set::<KeyView>::empty(),
            cache@.complete == Set::<KeyView>::empty(),
    {
        let cache = Cache { root: String::from_str(root), in_flight: Vec::new(), complete: Vec::new() };
        assert(cache@.in_flight =~= Set::<KeyView>::empty());
        assert(cache@.complete =~= Set::<KeyView>::empty());
        cache
    }

    /// The place of the entry of a key: a directory under the root that is
    /// named after the repository and the artifact.
    pub open spec fn entry_of(root: Seq<char>, key: KeyView) -> Seq<char> {
        joined(root, key.owner + "-"@ + key.name + "-"@ + decimal(key.artifact_id as nat))
    }

    /// Where the entry of a key is stored.
    pub fn entry_path(&self, key: &Key) -> (path: String)
        ensures
            path@ == Self::entry_of(self@.root, key@),
    {
        let mut name = concat3(key.repository.owner.as_str(), "-", key.repository.name.as_str());
        name.append("-");
        name.append(decimal_text(key.artifact_id).as_str());
        join(self.root.as_str(), name.as_str())
    }

    /// Asks for the entry of a key. `stored` says whether the disk holds a
    /// complete entry for it.
    ///
    /// The lookup and the registration are one step: of the callers that
    /// ask for a key whose entry is neither there nor being generated,
    /// the first is told to generate and every later one to wait.
    pub fn request(&mut self, key: &Key, stored: bool) -> (step: Step)
        ensures
            step == old(self)@.step_for(key@, stored),
            final(self)@ == old(self)@.after_request(key@, stored),
    {
        if stored {
            return Step::Adapt;
        }
        if position_of(&self.complete, key).is_some() {
            return Step::Adapt;
        }
        if position_of(&self.in_flight, key).is_some() {
            return Step::Await;
        }
        let ghost before = self.in_flight@;
        self.in_flight.push(key.clone());
        proof {
            assert forall|k: KeyView|
                holds_key(self.in_flight@, k) == (holds_key(before, k) || k == key@) by {
                if holds_key(before, k) {
                    let i = choose|i: int| 0 <= i < before.len() && (#[trigger] before[i])@ == k;
                    assert(self.in_flight@[i]@ == k);
                }
                if k == key@ {
                    assert(self.in_flight@[before.len() as int]@ == k);
                }
            }
            assert(self@.in_flight =~= old(self)@.in_flight.insert(key@));
        }
        Step::Generate
    }

    /// The directory under which the entries are stored.
    pub fn root(&self) -> (root: &str)
        ensures
            root@ == self@.root,
    {
        self.root.as_str()
    }

    /// Asks for what is stored of `storable`: its key is derived, and the
    /// entry of the key is asked for with `request`.
    pub fn get_or_generate<S: Storable>(&mut self, storable: &S, stored: bool) -> (step: Step)
        ensures
            step == old(self)@.step_for(storable.key_view(), stored),
            final(self)@ == old(self)@.after_request(storable.key_view(), stored),
    {
        self.request(storable.key(), stored)
    }

    /// Whether an entry is being generated for the key.
    pub fn is_in_flight(&self, key: &Key) -> (in_flight: bool)
        ensures
            in_flight == self@.in_flight.contains(key@),
    {
        position_of(&self.in_flight, key).is_some()
    }

    /// Whether the entry of the key is known to be complete.
    pub fn is_complete(&self, key: &Key) -> (complete: bool)
        ensures
            complete == self@.complete.contains(key@),
    {
        position_of(&self.complete, key).is_some()
    }

    /// Takes in the end of the generation for a key, and says what the one
    /// who generated does with the outcome. The key leaves the registry of
    /// generations in flight, whatever the outcome; it is marked complete
    /// only after a success.
    pub fn complete<M>(&mut self, key: &Key, outcome: Result<M, Failure>) -> (completion:
        Completion<M>)
        ensures
            final(self)@ == old(self)@.after_completion(key@, outcome is Ok),
            completion == match outcome {
                Ok(metadata) => Completion::Persist(metadata),
                Err(failure) => Completion::Propagate(failure),
            },
    {
        let mut kept: Vec<Key> = Vec::new();
        let ghost before = self.in_flight@;
        while self.in_flight.len() > 0
            invariant
                self.root == old(self).root,
                self.complete == old(self).complete,
                forall|k: KeyView|
                    k != key@ ==> (holds_key(before, k) <==> holds_key(self.in_flight@, k)
                        || holds_key(kept@, k)),
                !holds_key(kept@, key@),
            decreases self.in_flight.len(),
        {
            let ghost rest = self.in_flight@;
            let ghost had = kept@;
            let candidate = self.in_flight.pop().unwrap();
            let keep = !candidate.same_as(key);
            if keep {
                kept.push(candidate);
            }
            proof {
                assert forall|k: KeyView| k != key@ implies (holds_key(before, k) <==> holds_key(
                    self.in_flight@,
                    k,
                ) || holds_key(kept@, k)) by {
                    if holds_key(rest, k) {
                        let i = choose|i: int| 0 <= i < rest.len() && (#[trigger] rest[i])@ == k;
                        if i < rest.len() - 1 {
                            assert(self.in_flight@[i]@ == k);
                        } else {
                            assert(kept@[kept@.len() - 1]@ == k);
                        }
                    }
                    if holds_key(had, k) {
                        let i = choose|i: int| 0 <= i < had.len() && (#[trigger] had[i])@ == k;
                        assert(kept@[i]@ == k);
                    }
                    if holds_key(self.in_flight@, k) {
                        let i = choose|i: int|
                            0 <= i < self.in_flight@.len() && (#[trigger] self.in_flight@[i])@ == k;
                        assert(rest[i]@ == k);
                    }
                    if holds_key(kept@, k) {
                        let i = choose|i: int| 0 <= i < kept@.len() && (#[trigger] kept@[i])@ == k;
                        if i < had.len() {
                            assert(had[i]@ == k);
                        } else {
                            assert(rest[rest.len() - 1]@ == k);
                        }
                    }
                }
                if holds_key(kept@, key@) {
                    let i = choose|i: int| 0 <= i < kept@.len() && (#[trigger] kept@[i])@ == key@;
                    if i < had.len() {
                        assert(had[i]@ == key@);
                    }
                }
            }
        }
        self.in_flight = kept;
        proof {
            assert forall|k: KeyView| holds_key(self.in_flight@, k) == (holds_key(before, k) && k
                != key@) by {}
            assert(self@.in_flight =~= old(self)@.in_flight.remove(key@));
        }
        match outcome {
            Ok(metadata) => {
                let ghost had = self.complete@;
                if position_of(&self.complete, key).is_none() {
                    self.complete.push(key.clone());
                    proof {
                        assert forall|k: KeyView|
                            holds_key(self.complete@, k) == (holds_key(had, k) || k == key@) by {
                            if holds_key(had, k) {
                                let i = choose|i: int| 0 <= i < had.len() && (#[trigger] had[i])@ == k;
                                assert(self.complete@[i]@ == k);
                            }
                            if k == key@ {
                                assert(self.complete@[had.len() as int]@ == k);
                            }
                        }
                    }
                }
                assert(self@.complete =~= old(self)@.complete.insert(key@));
                Completion::Persist(metadata)
            },
            Err(failure) => Completion::Propagate(failure),
        }
    }
}

/// What a run of `requests` callers who all ask for `key`, one after the
/// other and with no generation ending in between, is told: the steps, in
/// the order of the callers. The disk holds no entry for the key
/// throughout.
pub open spec fn steps_told(cache: CacheView, key: KeyView, requests: nat) -> Seq<Step>
    decreases requests,
{
    if requests == 0 {
        Seq::empty()
    } else {
        seq![cache.step_for(key, false)] + steps_told(
            cache.after_request(key, false),
            key,
            (requests - 1) as nat,
        )
    }
}

/// While the entry of a key is in flight, every caller who asks for it is
/// told to wait.
pub proof fn lemma_waiters_converge(cache: CacheView, key: KeyView, requests: nat)
    requires
        cache.in_flight.contains(key),
        !cache.complete.contains(key),
    ensures
        steps_told(cache, key, requests).len() == requests,
        forall|i: int| 0 <= i < requests ==> steps_told(cache, key, requests)[i] == Step::Await,
    decreases requests,
{
    if requests > 0 {
        lemma_waiters_converge(cache.after_request(key, false), key, (requests - 1) as nat);
    }
}

/// One generation per key. Of two or more callers who ask for a key whose
/// entry is neither there nor being generated, the first is told to
/// generate and every other one to wait for that generation: exactly one
/// generation is started, and all take its result.
pub proof fn lemma_single_generation(cache: CacheView, key: KeyView, requests: nat)
    requires
        requests >= 2,
        !cache.in_flight.contains(key),
        !cache.complete.contains(key),
    ensures
        steps_told(cache, key, requests).len() == requests,
        steps_told(cache, key, requests)[0] == Step::Generate,
        forall|i: int| 1 <= i < requests ==> steps_told(cache, key, requests)[i] == Step::Await,
        steps_told(cache, key, requests).filter(|step: Step| step == Step::Generate).len() == 1,
{
    let told = steps_told(cache, key, requests);
    let rest = steps_told(cache.after_request(key, false), key, (requests - 1) as nat);
    lemma_waiters_converge(cache.after_request(key, false), key, (requests - 1) as nat);
    assert(told == seq![Step::Generate] + rest);
    let generating = |step: Step| step == Step::Generate;
    lemma_no_generation_among_waiters(rest);
    crate::lists::lemma_filter_prepend(Step::Generate, rest, generating);
    assert(told.filter(generating) =~= seq![Step::Generate]);
}

/// Among callers who were all told to wait, none generates.
pub proof fn lemma_no_generation_among_waiters(told: Seq<Step>)
    requires
        forall|i: int| 0 <= i < told.len() ==> told[i] == Step::Await,
    ensures
        told.filter(|step: Step| step == Step::Generate) == Seq::<Step>::empty(),
    decreases told.len(),
{
    let generating = |step: Step| step == Step::Generate;
    reveal(Seq::filter);
    if told.len() > 0 {
        lemma_no_generation_among_waiters(told.drop_last());
        assert(!generating(told.last()));
    }
    assert(told.filter(generating) =~= Seq::<Step>::empty());
}

/// All observers see one output. Whoever adapts the entry of an artifact,
/// the one who generated it or one who waited, adapts the same place under
/// the root, and so gets the same output.
pub proof fn lemma_observers_agree(
    artifact: crate::cache::artifact::ExtractedArtifact,
    root: Seq<char>,
    first: String,
    second: String,
)
    requires
        crate::cache::artifact::Storable::adapted(
            &artifact,
            Cache::entry_of(root, artifact.key@),
            (),
            first,
        ),
        crate::cache::artifact::Storable::adapted(
            &artifact,
            Cache::entry_of(root, artifact.key@),
            (),
            second,
        ),
    ensures
        first@ == second@,
        first@ == Cache::entry_of(root, artifact.key@),
{
}

/// Idempotence. After the generation for a key has succeeded, whoever asks
/// for the key is told to adapt the entry that is there, whatever a look
/// at the disk said, and the registry stays as it is: nothing is generated
/// again.
pub proof fn lemma_second_request_adapts(cache: CacheView, key: KeyView, stored: bool)
    ensures
        cache.after_completion(key, true).step_for(key, stored) == Step::Adapt,
        cache.after_completion(key, true).after_request(key, stored) == cache.after_completion(
            key,
            true,
        ),
        !cache.after_completion(key, true).in_flight.contains(key),
{
}

/// Entries stay. Neither a request nor the end of a generation takes a key
/// out of the complete ones; and a key becomes complete only by a
/// generation that succeeded.
pub proof fn lemma_complete_only_grows(
    cache: CacheView,
    key: KeyView,
    other: KeyView,
    stored: bool,
    success: bool,
)
    ensures
        cache.complete.contains(other) ==> cache.after_request(key, stored).complete.contains(
            other,
        ) && cache.after_completion(key, success).complete.contains(other),
        cache.after_request(key, stored).complete == cache.complete,
        !cache.complete.contains(other) && cache.after_completion(key, success).complete.contains(
            other,
        ) ==> success && other == key,
{
}

/// A failed generation leaves the key incomplete and out of flight, so a
/// later caller generates from scratch, unless the key was complete
/// already.
pub proof fn lemma_failure_allows_retry(cache: CacheView, key: KeyView)
    requires
        !cache.complete.contains(key),
    ensures
        cache.after_completion(key, false).step_for(key, false) == Step::Generate,
        cache.after_completion(key, false).complete == cache.complete,
{
}

} // verus!
