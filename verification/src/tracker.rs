//! The press-state tracker: per input group, the set of currently-held
//! canonical identifiers. It is the sole source of truth for press and
//! release edge detection: a press of an already-held identifier and a
//! release of a not-held identifier report no transition.

use vstd::prelude::*;

verus! {

/// The set of identifiers one input group currently considers held.
/// An identifier is in the set if and only if it is held; absence means
/// not held.
pub struct Tracker {
    held: Vec<String>,
}

impl View for Tracker {
    type V = Set<Seq<char>>;

    closed spec fn view(&self) -> Set<Seq<char>> {
        Set::new(
            |n: Seq<char>|
                exists|i: int| 0 <= i < self.held@.len() && (#[trigger] self.held@[i])@ == n,
        )
    }
}

impl Tracker {
    /// Internally, each held identifier is recorded once.
    pub closed spec fn wf(&self) -> bool {
        forall|i: int, j: int|
            0 <= i < j < self.held@.len() ==> (#[trigger] self.held@[i])@ != (
            #[trigger] self.held@[j])@
    }

    /// Creates a tracker with nothing held.
    pub fn new() -> (t: Tracker)
        ensures
            t.wf(),
            t@ == Set::<Seq<char>>::empty(),
    {
        let t = Tracker { held: Vec::new() };
        proof {
            assert(t@ =~= Set::<Seq<char>>::empty());
        }
        t
    }

    /// The index holding `name`, if any.
    fn find(&self, name: &str) -> (r: Option<usize>)
        ensures
            r matches Some(i) ==> i < self.held@.len() && self.held@[i as int]@ == name@
                && self@.contains(name@),
            r is None ==> !self@.contains(name@),
    {
        let key = String::from_str(name);
        let mut i: usize = 0;
        while i < self.held.len()
            invariant
                i <= self.held@.len(),
                key@ == name@,
                forall|j: int| 0 <= j < i ==> (#[trigger] self.held@[j])@ != name@,
            decreases self.held@.len() - i,
        {
            if self.held[i] == key {
                proof {
                    assert(self.held@[i as int]@ == name@);
                }
                return Some(i);
            }
            i += 1;
        }
        None
    }

    /// Whether `name` is currently considered held.
    pub fn is_held(&self, name: &str) -> (r: bool)
        ensures
            r == self@.contains(name@),
    {
        self.find(name).is_some()
    }

    /// Records a raw press of `name`. Returns whether the press is a
    /// transition to pressed: a press of an already-held identifier is
    /// a duplicate and changes nothing.
    pub fn on_raw_press(&mut self, name: &str) -> (transition: bool)
        requires
            old(self).wf(),
        ensures
            final(self).wf(),
            transition == !old(self)@.contains(name@),
            transition ==> final(self)@ == old(self)@.insert(name@),
            !transition ==> final(self)@ == old(self)@,
    {
        match self.find(name) {
            Some(_) => false,
            None => {
                let ghost prev = self.held@;
                self.held.push(String::from_str(name));
                proof {
                    let oldv = old(self)@;
                    let newv = final(self)@;
                    assert forall|n: Seq<char>| newv.contains(n) implies oldv.insert(
                        name@,
                    ).contains(n) by {
                        let i = choose|i: int|
                            0 <= i < self.held@.len() && (#[trigger] self.held@[i])@ == n;
                        if i < prev.len() {
                            assert(prev[i]@ == n);
                        }
                    }
                    assert forall|n: Seq<char>| oldv.insert(name@).contains(n) implies newv.contains(
                        n,
                    ) by {
                        if n == name@ {
                            assert(self.held@[prev.len() as int]@ == n);
                        } else {
                            let i = choose|i: int| 0 <= i < prev.len() && (#[trigger] prev[i])@ == n;
                            assert(self.held@[i]@ == n);
                        }
                    }
                    assert(final(self)@ =~= old(self)@.insert(name@));
                }
                true
            },
        }
    }

    /// Records a raw release of `name`. Returns whether the release is
    /// a transition to released: a release of a not-held identifier is
    /// spurious and changes nothing.
    pub fn on_raw_release(&mut self, name: &str) -> (transition: bool)
        requires
            old(self).wf(),
        ensures
            final(self).wf(),
            transition == old(self)@.contains(name@),
            transition ==> final(self)@ == old(self)@.remove(name@),
            !transition ==> final(self)@ == old(self)@,
    {
        match self.find(name) {
            None => false,
            Some(i) => {
                let ghost prev = self.held@;
                self.held.remove(i);
                proof {
                    let oldv = old(self)@;
                    let newv = final(self)@;
                    assert forall|n: Seq<char>| newv.contains(n) implies oldv.remove(
                        name@,
                    ).contains(n) by {
                        let j = choose|j: int|
                            0 <= j < self.held@.len() && (#[trigger] self.held@[j])@ == n;
                        if j < i {
                            assert(prev[j]@ == n);
                        } else {
                            assert(prev[j + 1]@ == n);
                        }
                    }
                    assert forall|n: Seq<char>| oldv.remove(name@).contains(n) implies newv.contains(
                        n,
                    ) by {
                        let j = choose|j: int| 0 <= j < prev.len() && (#[trigger] prev[j])@ == n;
                        if j < i {
                            assert(self.held@[j]@ == n);
                        } else {
                            assert(j != i);
                            assert(self.held@[j - 1]@ == n);
                        }
                    }
                    assert(final(self)@ =~= old(self)@.remove(name@));
                }
                true
            },
        }
    }
}

} // verus!
