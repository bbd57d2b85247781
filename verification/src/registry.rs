//! The live windows, by label.

use vstd::prelude::*;
use crate::platform::WindowState;
use crate::text::same_text;

verus! {

/// The windows that are alive, each under its own label, with the
/// presentation properties it has. A label stands for at most one window.
///
/// Its view is the map from each label to the properties of its window.
#[derive(Debug, Clone)]
pub struct WindowRegistry {
    labels: Vec<String>,
    states: Vec<WindowState>,
}

impl View for WindowRegistry {
    type V = Map<Seq<char>, WindowState>;

    closed spec fn view(&self) -> Map<Seq<char>, WindowState> {
        Map::new(|label: Seq<char>| self.has(label), |label: Seq<char>| self.states@[self.slot_of(label)])
    }
}

impl WindowRegistry {
    /// Every label has its state beside it, and no label occurs twice.
    pub closed spec fn well_formed(self) -> bool {
        &&& self.labels@.len() == self.states@.len()
        &&& forall|i: int, j: int|
            0 <= i < j < self.labels@.len() ==> self.labels@[i]@ != self.labels@[j]@
    }

    /// Some window has this label.
    spec fn has(self, label: Seq<char>) -> bool {
        exists|i: int| 0 <= i < self.labels@.len() && (#[trigger] self.labels@[i])@ == label
    }

    /// Where the window with this label stands.
    spec fn slot_of(self, label: Seq<char>) -> int {
        choose|i: int| 0 <= i < self.labels@.len() && (#[trigger] self.labels@[i])@ == label
    }

    /// The window at a slot is the one that the view holds under its label.
    proof fn lemma_slot(self, i: int)
        requires
            self.well_formed(),
            0 <= i < self.labels@.len(),
        ensures
            self.has(self.labels@[i]@),
            self.slot_of(self.labels@[i]@) == i,
            self@.contains_key(self.labels@[i]@),
            self@[self.labels@[i]@] == self.states@[i],
    {
        let label = self.labels@[i]@;
        assert(self.has(label));
        let j = self.slot_of(label);
        assert(0 <= j < self.labels@.len() && self.labels@[j]@ == label);
        if j < i {
            assert(self.labels@[j]@ != self.labels@[i]@);
        } else if i < j {
            assert(self.labels@[i]@ != self.labels@[j]@);
        }
    }

    /// A label that stands at no slot is not in the view.
    proof fn lemma_absent(self, label: Seq<char>)
        requires
            forall|i: int| 0 <= i < self.labels@.len() ==> (#[trigger] self.labels@[i])@ != label,
        ensures
            !self@.contains_key(label),
    {
    }

    /// A registry without windows.
    pub fn new() -> (registry: Self)
        ensures
            registry.well_formed(),
            registry@ == Map::<Seq<char>, WindowState>::empty(),
    {
        let registry = WindowRegistry { labels: Vec::new(), states: Vec::new() };
        assert(registry@ =~= Map::<Seq<char>, WindowState>::empty());
        registry
    }

    /// The slot of the window with this label, if there is one.
    fn find(&self, label: &str) -> (slot: Option<usize>)
        ensures
            match slot {
                Some(i) => i < self.labels@.len() && self.labels@[i as int]@ == label@,
                None => forall|i: int|
                    0 <= i < self.labels@.len() ==> (#[trigger] self.labels@[i])@ != label@,
            },
    {
        let mut i: usize = 0;
        while i < self.labels.len()
            invariant
                i <= self.labels@.len(),
                forall|k: int| 0 <= k < i ==> (#[trigger] self.labels@[k])@ != label@,
            decreases self.labels@.len() - i,
        {
            if same_text(self.labels[i].as_str(), label) {
                return Some(i);
            }
            i += 1;
        }
        None
    }

    /// Whether a window with this label is alive.
    pub fn contains(&self, label: &str) -> (found: bool)
        requires
            self.well_formed(),
        ensures
            found == self@.contains_key(label@),
    {
        match self.find(label) {
            Some(i) => {
                proof {
                    self.lemma_slot(i as int);
                }
                true
            },
            None => {
                proof {
                    self.lemma_absent(label@);
                }
                false
            },
        }
    }

    /// The properties of the window with this label, if it is alive.
    pub fn state_of(&self, label: &str) -> (state: Option<WindowState>)
        requires
            self.well_formed(),
        ensures
            state == (if self@.contains_key(label@) {
                Some(self@[label@])
            } else {
                None
            }),
    {
        match self.find(label) {
            Some(i) => {
                proof {
                    self.lemma_slot(i as int);
                }
                Some(self.states[i])
            },
            None => {
                proof {
                    self.lemma_absent(label@);
                }
                None
            },
        }
    }

    /// Takes in a window under a label that no live window has. A label that
    /// is taken keeps its window, and the registry stays as it was.
    pub fn register(&mut self, label: &str, state: WindowState) -> (added: bool)
        requires
            old(self).well_formed(),
        ensures
            final(self).well_formed(),
            added == !old(self)@.contains_key(label@),
            added ==> final(self)@ == old(self)@.insert(label@, state),
            !added ==> final(self)@ == old(self)@,
    {
        match self.find(label) {
            Some(i) => {
                proof {
                    self.lemma_slot(i as int);
                }
                false
            },
            None => {
                proof {
                    self.lemma_absent(label@);
                }
                let ghost before = *self;
                self.labels.push(label.to_owned());
                self.states.push(state);
                proof {
                    let after = *self;
                    let n: int = before.labels@.len() as int;
                    assert(after.well_formed());
                    after.lemma_slot(n);
                    assert forall|l: Seq<char>| #[trigger]
                        after@.contains_key(l) == before@.insert(label@, state).contains_key(
                            l,
                        ) by {
                        if before.has(l) {
                            let k = before.slot_of(l);
                            assert(after.labels@[k]@ == l);
                        }
                        if after.has(l) {
                            let k = after.slot_of(l);
                            if k < n {
                                assert(before.labels@[k]@ == l);
                            }
                        }
                    }
                    assert forall|l: Seq<char>| #[trigger] after@.contains_key(l) implies after@[l]
                        == before@.insert(label@, state)[l] by {
                        let k = after.slot_of(l);
                        after.lemma_slot(k);
                        if k < n {
                            assert(before.labels@[k]@ == l);
                            before.lemma_slot(k);
                        }
                    }
                    assert(after@ =~= before@.insert(label@, state));
                }
                true
            },
        }
    }

    /// Gives the window with this label new properties. Without such a
    /// window nothing changes.
    pub fn replace(&mut self, label: &str, state: WindowState) -> (replaced: bool)
        requires
            old(self).well_formed(),
        ensures
            final(self).well_formed(),
            replaced == old(self)@.contains_key(label@),
            replaced ==> final(self)@ == old(self)@.insert(label@, state),
            !replaced ==> final(self)@ == old(self)@,
    {
        match self.find(label) {
            Some(i) => {
                proof {
                    self.lemma_slot(i as int);
                }
                self.put(i, state);
                true
            },
            None => {
                proof {
                    self.lemma_absent(label@);
                }
                false
            },
        }
    }

    /// Gives the window at a slot new properties.
    fn put(&mut self, slot: usize, state: WindowState)
        requires
            old(self).well_formed(),
            slot < old(self).labels@.len(),
        ensures
            final(self).well_formed(),
            final(self)@ == old(self)@.insert(old(self).labels@[slot as int]@, state),
    {
        let ghost before = *self;
        self.states.set(slot, state);
        proof {
            let after = *self;
            let label = before.labels@[slot as int]@;
            assert(after.well_formed());
            assert forall|l: Seq<char>| #[trigger]
                after@.contains_key(l) == before@.insert(label, state).contains_key(l) by {
                before.lemma_slot(slot as int);
                if before.has(l) {
                    let k = before.slot_of(l);
                    assert(after.labels@[k]@ == l);
                }
                if after.has(l) {
                    let k = after.slot_of(l);
                    assert(before.labels@[k]@ == l);
                }
            }
            assert forall|l: Seq<char>| #[trigger] after@.contains_key(l) implies after@[l]
                == before@.insert(label, state)[l] by {
                let k = after.slot_of(l);
                after.lemma_slot(k);
                before.lemma_slot(k);
            }
            assert(after@ =~= before@.insert(label, state));
        }
    }
}

} // verus!
