//! The desired package set that the daemon keeps in state.json.
use vstd::prelude::*;

use vstd::string::StringExecFns;

use crate::text::same_text;

verus! {

/// The packages that the daemon installs, as nixpkgs attribute names.
#[derive(Debug)]
pub struct State {
    pub packages: Vec<String>,
}

impl View for State {
    type V = Seq<Seq<char>>;

    open spec fn view(&self) -> Seq<Seq<char>> {
        texts(self.packages@)
    }
}

/// The text of each string, in order.
pub open spec fn texts(strings: Seq<String>) -> Seq<Seq<char>> {
    strings.map_values(|p: String| p@)
}

/// `packages` with every occurrence of `attr` taken out, the others in order.
pub open spec fn without(packages: Seq<Seq<char>>, attr: Seq<char>) -> Seq<Seq<char>>
    decreases packages.len(),
{
    if packages.len() == 0 {
        packages
    } else {
        let rest = without(packages.drop_last(), attr);
        if packages.last() == attr {
            rest
        } else {
            rest.push(packages.last())
        }
    }
}

impl State {
    /// The state of a system that the daemon has not yet given any package.
    pub fn new() -> (res: State)
        ensures
            res@ == Seq::<Seq<char>>::empty(),
    {
        State { packages: Vec::new() }
    }

    /// A copy of this state.
    pub fn duplicate(&self) -> (res: State)
        ensures
            res@ == self@,
    {
        let mut packages: Vec<String> = Vec::new();
        let mut i: usize = 0;
        while i < self.packages.len()
            invariant
                i <= self.packages.len(),
                texts(packages@) == self@.take(i as int),
            decreases self.packages.len() - i,
        {
            let copy = self.packages[i].clone();
            proof {
                assert(copy@ == self@[i as int]);
            }
            let ghost prev = packages@;
            packages.push(copy);
            assert(texts(packages@) =~= texts(prev).push(self@[i as int]));
            assert(self@.take(i + 1) =~= self@.take(i as int).push(self@[i as int]));
            i = i + 1;
        }
        assert(self@.take(self.packages.len() as int) =~= self@);
        State { packages }
    }

    /// Whether the package set holds `attr`.
    pub fn contains(&self, attr: &str) -> (res: bool)
        ensures
            res == self@.contains(attr@),
    {
        let mut i: usize = 0;
        while i < self.packages.len()
            invariant
                i <= self.packages.len(),
                forall|k: int| 0 <= k < i ==> self@[k] != attr@,
            decreases self.packages.len() - i,
        {
            if same_text(self.packages[i].as_str(), attr) {
                assert(self@[i as int] == attr@);
                return true;
            }
            i = i + 1;
        }
        false
    }

    /// Appends `attr` to the package set.
    pub fn add(&mut self, attr: &str)
        ensures
            final(self)@ == old(self)@.push(attr@),
    {
        self.packages.push(String::from_str(attr));
        assert(self@ =~= old(self)@.push(attr@));
    }

    /// Takes every occurrence of `attr` out of the package set.
    pub fn remove(&mut self, attr: &str)
        ensures
            final(self)@ == without(old(self)@, attr@),
    {
        let ghost before = self@;
        let mut kept: Vec<String> = Vec::new();
        let mut i: usize = 0;
        while i < self.packages.len()
            invariant
                before == self@,
                i <= self.packages.len(),
                texts(kept@) == without(before.take(i as int), attr@),
            decreases self.packages.len() - i,
        {
            assert(before.take(i + 1).drop_last() =~= before.take(i as int));
            if !same_text(self.packages[i].as_str(), attr) {
                kept.push(self.packages[i].clone());
            }
            assert(texts(kept@) =~= without(before.take(i + 1), attr@));
            i = i + 1;
        }
        assert(before.take(before.len() as int) =~= before);
        self.packages = kept;
    }
}

/// What taking `attr` out keeps: exactly the packages other than `attr`.
pub proof fn lemma_without_keeps_the_others(packages: Seq<Seq<char>>, attr: Seq<char>)
    ensures
        forall|p: Seq<char>| #[trigger] without(packages, attr).contains(p)
            <==> packages.contains(p) && p != attr,
        without(packages, attr).len() <= packages.len(),
    decreases packages.len(),
{
    if packages.len() > 0 {
        let init = packages.drop_last();
        lemma_without_keeps_the_others(init, attr);
        assert forall|p: Seq<char>| #[trigger] packages.contains(p)
            <==> init.contains(p) || p == packages.last() by {
            if packages.contains(p) {
                let k = choose|k: int| 0 <= k < packages.len() && packages[k] == p;
                if k < packages.len() - 1 {
                    assert(init[k] == p);
                }
            }
            if init.contains(p) {
                let k = choose|k: int| 0 <= k < init.len() && init[k] == p;
                assert(packages[k] == p);
            }
            if p == packages.last() {
                assert(packages[packages.len() - 1] == p);
            }
        }
        let rest = without(init, attr);
        if packages.last() != attr {
            assert forall|p: Seq<char>| #[trigger] rest.push(packages.last()).contains(p)
                <==> rest.contains(p) || p == packages.last() by {
                if rest.push(packages.last()).contains(p) {
                    let k = choose|k: int| 0 <= k < rest.len() + 1 && rest.push(packages.last())[k] == p;
                    if k < rest.len() {
                        assert(rest[k] == p);
                    }
                }
                if rest.contains(p) {
                    let k = choose|k: int| 0 <= k < rest.len() && rest[k] == p;
                    assert(rest.push(packages.last())[k] == p);
                }
                if p == packages.last() {
                    assert(rest.push(packages.last())[rest.len() as int] == p);
                }
            }
        }
    }
}

/// Taking out a package that is not there changes nothing.
pub proof fn lemma_without_absent_is_identity(packages: Seq<Seq<char>>, attr: Seq<char>)
    requires
        !packages.contains(attr),
    ensures
        without(packages, attr) == packages,
    decreases packages.len(),
{
    if packages.len() > 0 {
        let init = packages.drop_last();
        assert(!init.contains(attr)) by {
            if init.contains(attr) {
                let k = choose|k: int| 0 <= k < init.len() && init[k] == attr;
                assert(packages[k] == attr);
            }
        }
        lemma_without_absent_is_identity(init, attr);
        assert(packages[packages.len() - 1] != attr);
        assert(init.push(packages.last()) =~= packages);
    }
}

/// Taking a package out shortens the set exactly when the package is there.
pub proof fn lemma_without_shortens_iff_present(packages: Seq<Seq<char>>, attr: Seq<char>)
    ensures
        without(packages, attr).len() == packages.len() <==> !packages.contains(attr),
    decreases packages.len(),
{
    if packages.len() > 0 {
        let init = packages.drop_last();
        lemma_without_shortens_iff_present(init, attr);
        lemma_without_keeps_the_others(init, attr);
        assert(packages.contains(attr) <==> init.contains(attr) || packages.last() == attr) by {
            if packages.contains(attr) {
                let k = choose|k: int| 0 <= k < packages.len() && packages[k] == attr;
                if k < packages.len() - 1 {
                    assert(init[k] == attr);
                }
            }
            if init.contains(attr) {
                let k = choose|k: int| 0 <= k < init.len() && init[k] == attr;
                assert(packages[k] == attr);
            }
            if packages.last() == attr {
                assert(packages[packages.len() - 1] == attr);
            }
        }
    } else {
        assert(!packages.contains(attr));
    }
}

/// Adding a package that is not installed and then removing it gives back the
/// package set as it was.
pub proof fn lemma_remove_undoes_add(packages: Seq<Seq<char>>, attr: Seq<char>)
    requires
        !packages.contains(attr),
    ensures
        without(packages.push(attr), attr) == packages,
{
    assert(packages.push(attr).drop_last() =~= packages);
    lemma_without_absent_is_identity(packages, attr);
}

/// Adding only absent packages, and removing packages, keep a package set free
/// of repeated names.
pub proof fn lemma_updates_keep_names_unique(packages: Seq<Seq<char>>, attr: Seq<char>)
    requires
        packages.no_duplicates(),
    ensures
        !packages.contains(attr) ==> packages.push(attr).no_duplicates(),
        without(packages, attr).no_duplicates(),
    decreases packages.len(),
{
    if !packages.contains(attr) {
        assert forall|i: int, j: int|
            0 <= i < packages.len() + 1 && 0 <= j < packages.len() + 1 && i != j
            implies packages.push(attr)[i] != packages.push(attr)[j] by {
            if i == packages.len() {
                assert(packages[j] != attr);
            } else if j == packages.len() {
                assert(packages[i] != attr);
            }
        }
    }
    if packages.len() > 0 {
        let init = packages.drop_last();
        assert(init.no_duplicates());
        lemma_updates_keep_names_unique(init, attr);
        lemma_without_keeps_the_others(init, attr);
        let rest = without(init, attr);
        if packages.last() != attr {
            assert(!init.contains(packages.last())) by {
                if init.contains(packages.last()) {
                    let k = choose|k: int| 0 <= k < init.len() && init[k] == packages.last();
                    assert(packages[k] == packages[packages.len() - 1]);
                }
            }
            assert(!rest.contains(packages.last()));
            assert forall|i: int, j: int|
                0 <= i < rest.len() + 1 && 0 <= j < rest.len() + 1 && i != j
                implies rest.push(packages.last())[i] != rest.push(packages.last())[j] by {
                if i == rest.len() {
                    assert(rest[j] != packages.last());
                } else if j == rest.len() {
                    assert(rest[i] != packages.last());
                }
            }
        }
    }
}

} // verus!
