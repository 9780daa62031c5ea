//! User-defined functions and the registry that holds them.
use vstd::prelude::*;
use vstd::string::*;
use crate::queue::{texts, Text};

verus! {

/// A user-defined function: a name and the tokens that were captured as its
/// body. The anonymous function goes by the name `_`.
#[derive(Debug)]
pub struct Function {
    pub name: String,
    pub fops: Vec<String>,
}

/// A function as contracts see it.
pub struct FunctionModel {
    pub name: Text,
    pub fops: Seq<Text>,
}

impl View for Function {
    type V = FunctionModel;

    open spec fn view(&self) -> FunctionModel {
        FunctionModel { name: self.name@, fops: texts(self.fops@) }
    }
}

/// The name under which the anonymous function is kept.
pub open spec fn lambda_name() -> Text {
    "_"@
}

/// The functions of a registry as contracts see them, in order.
pub open spec fn models(v: Seq<Function>) -> Seq<FunctionModel> {
    Seq::new(v.len(), |i: int| v[i]@)
}

/// The index, from `i` on, of the first function named `name`.
pub open spec fn find_function(fns: Seq<FunctionModel>, i: int, name: Text) -> Option<int>
    decreases fns.len() - i,
{
    if i < 0 || i >= fns.len() {
        None
    } else if fns[i].name == name {
        Some(i)
    } else {
        find_function(fns, i + 1, name)
    }
}

/// The registry without the functions named `name`, the others in order.
pub open spec fn without(fns: Seq<FunctionModel>, name: Text) -> Seq<FunctionModel>
    decreases fns.len(),
{
    if fns.len() == 0 {
        fns
    } else if fns.last().name == name {
        without(fns.drop_last(), name)
    } else {
        without(fns.drop_last(), name).push(fns.last())
    }
}

/// No function of `without(fns, name)` is named `name`.
pub proof fn lemma_without_has_none(fns: Seq<FunctionModel>, name: Text)
    ensures
        forall|i: int|
            0 <= i < without(fns, name).len() ==> (#[trigger] without(fns, name)[i]).name != name,
    decreases fns.len(),
{
    if fns.len() > 0 {
        lemma_without_has_none(fns.drop_last(), name);
        let shorter = without(fns.drop_last(), name);
        assert forall|i: int| 0 <= i < without(fns, name).len() implies (#[trigger] without(
            fns,
            name,
        )[i]).name != name by {
            if i < shorter.len() {
                assert(shorter[i].name != name);
            }
        }
    }
}

/// A search that starts at `i` finds nothing where no function from `i` on
/// has the name, and finds index `k` where `k` is the first that has it.
pub proof fn lemma_find_function(fns: Seq<FunctionModel>, i: int, name: Text, k: int)
    requires
        0 <= i <= k <= fns.len(),
        forall|j: int| i <= j < k ==> (#[trigger] fns[j]).name != name,
        k < fns.len() ==> fns[k].name == name,
    ensures
        find_function(fns, i, name) == (if k < fns.len() {
            Some(k)
        } else {
            None
        }),
    decreases k - i,
{
    if i < k {
        lemma_find_function(fns, i + 1, name, k);
    }
}

/// A search that finds nothing has passed no function of the name.
pub proof fn lemma_not_found(fns: Seq<FunctionModel>, i: int, name: Text)
    requires
        0 <= i,
        find_function(fns, i, name) is None,
    ensures
        forall|j: int| i <= j < fns.len() ==> (#[trigger] fns[j]).name != name,
    decreases fns.len() - i,
{
    if i < fns.len() {
        lemma_not_found(fns, i + 1, name);
    }
}

/// The place of the first function named `name`, if there is one.
pub fn is_user_function(fns: &Vec<Function>, name: &str) -> (r: Option<usize>)
    ensures
        match r {
            Some(k) => find_function(models(fns@), 0, name@) == Some(k as int) && k < fns.len(),
            None => find_function(models(fns@), 0, name@) is None,
        },
{
    let wanted = String::from_str(name);
    let mut i: usize = 0;
    while i < fns.len()
        invariant
            i <= fns.len(),
            wanted@ == name@,
            forall|j: int| 0 <= j < i ==> (#[trigger] models(fns@)[j]).name != name@,
        decreases fns.len() - i,
    {
        if fns[i].name == wanted {
            proof {
                lemma_find_function(models(fns@), 0, name@, i as int);
            }
            return Some(i);
        }
        i = i + 1;
    }
    proof {
        lemma_find_function(models(fns@), 0, name@, fns.len() as int);
    }
    None
}

/// Removes every function named `name` from the registry, keeping the order
/// of the others.
pub fn forget(fns: &mut Vec<Function>, name: &str)
    ensures
        models(final(fns)@) == without(models(old(fns)@), name@),
{
    let wanted = String::from_str(name);
    let mut kept: Vec<Function> = Vec::new();
    let ghost all = models(fns@);
    let ghost mut seen: int = fns.len() as int;
    proof {
        assert(all.take(seen) =~= all);
    }
    while fns.len() > 0
        invariant
            wanted@ == name@,
            seen == fns.len(),
            0 <= seen <= all.len(),
            models(fns@) == all.take(seen),
            without(all, name@) == without(all.take(seen), name@) + models(kept@).reverse(),
        decreases fns.len(),
    {
        let f = fns.pop().unwrap();
        proof {
            let part = all.take(seen);
            assert(part.drop_last() =~= all.take(seen - 1));
            seen = seen - 1;
        }
        if f.name == wanted {
        } else {
            let ghost kept_before = models(kept@);
            kept.push(f);
            proof {
                assert(without(all.take(seen), name@).push(f@) + kept_before.reverse()
                    =~= without(all.take(seen), name@) + (seq![f@] + kept_before.reverse()));
            }
        }
    }
    let ghost target = models(kept@).reverse();
    while kept.len() > 0
        invariant
            fns.len() + kept.len() == target.len(),
            models(fns@) == target.take(fns.len() as int),
            models(kept@).reverse() == target.skip(fns.len() as int),
        decreases kept.len(),
    {
        let ghost kb = models(kept@);
        let f = kept.pop().unwrap();
        fns.push(f);
        proof {
            assert(kb.reverse()[0] == f@);
            assert(models(kept@).reverse() =~= kb.reverse().skip(1));
        }
    }
}

} // verus!
