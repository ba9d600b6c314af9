//! Templates: functions that produce a component for every entity that
//! carries a label, and run again when what they read has changed.
//!
//! Here stand the two decisions that templates need: after which other
//! templates a template has to run, and whether a snapshot of what a template
//! reads differs from the one taken before. Components are named by the
//! indices of their identifiers.

use vstd::prelude::*;
use vstd::std_specs::cmp::PartialEqSpec;

verus! {

/// What scheduling needs to know of one template.
#[derive(Debug)]
pub struct TemplateInfo {
    /// The components that the template reads.
    pub reads: Vec<usize>,
    /// The component that the template produces.
    pub output: usize,
}

/// Whether the template at `reader` reads what the template at `writer`
/// produces.
pub open spec fn reads_output_of(templates: Seq<TemplateInfo>, reader: int, writer: int) -> bool {
    templates[reader].reads@.contains(templates[writer].output)
}

/// Whether `component` is among `reads`.
pub fn reads_component(reads: &Vec<usize>, component: usize) -> (found: bool)
    ensures
        found == reads@.contains(component),
{
    let mut i: usize = 0;
    while i < reads.len()
        invariant
            i <= reads@.len(),
            forall|k: int| 0 <= k < i ==> reads@[k] != component,
        decreases reads@.len() - i,
    {
        if reads[i] == component {
            return true;
        }
        i = i + 1;
    }
    false
}

/// Whether `after` lists the templates that the template at `index` has to
/// run after: those whose output it reads, each once, in ascending order. A
/// template that reads its own output is among them.
pub open spec fn is_run_after(templates: Seq<TemplateInfo>, index: int, after: Seq<usize>) -> bool {
    &&& forall|j: usize|
        j < templates.len() ==> (#[trigger] after.contains(j) <==> reads_output_of(
            templates,
            index,
            j as int,
        ))
    &&& forall|k: int| 0 <= k < after.len() ==> (#[trigger] after[k]) < templates.len()
    &&& forall|k: int, l: int| 0 <= k < l < after.len() ==> after[k] < after[l]
}

/// Lists the templates that the template at `index` has to run after. An
/// index that names no template has nothing to run after.
pub fn run_after(templates: &Vec<TemplateInfo>, index: usize) -> (after: Vec<usize>)
    ensures
        index < templates@.len() ==> is_run_after(templates@, index as int, after@),
        index >= templates@.len() ==> after@.len() == 0,
{
    let mut after: Vec<usize> = Vec::new();
    if index >= templates.len() {
        return after;
    }
    let mut other: usize = 0;
    while other < templates.len()
        invariant
            index < templates@.len(),
            other <= templates@.len(),
            forall|j: usize|
                j < other ==> (#[trigger] after@.contains(j) <==> reads_output_of(
                    templates@,
                    index as int,
                    j as int,
                )),
            forall|k: int| 0 <= k < after@.len() ==> (#[trigger] after@[k]) < other,
            forall|k: int, l: int| 0 <= k < l < after@.len() ==> after@[k] < after@[l],
        decreases templates@.len() - other,
    {
        let ghost before = after@;
        if reads_component(&templates[index].reads, templates[other].output) {
            after.push(other);
            assert(after@[before.len() as int] == other);
            assert forall|j: usize| j < other + 1 implies (#[trigger] after@.contains(j)
                <==> reads_output_of(templates@, index as int, j as int)) by {
                if j < other {
                    if before.contains(j) {
                        let k = choose|k: int| 0 <= k < before.len() && before[k] == j;
                        assert(after@[k] == j);
                    }
                    if after@.contains(j) {
                        let k = choose|k: int| 0 <= k < after@.len() && after@[k] == j;
                        assert(k < before.len());
                        assert(before[k] == j);
                    }
                }
            }
        } else {
            assert forall|j: usize| j < other + 1 implies (#[trigger] after@.contains(j)
                <==> reads_output_of(templates@, index as int, j as int)) by {
                if j == other && after@.contains(j) {
                    let k = choose|k: int| 0 <= k < after@.len() && after@[k] == j;
                    assert(after@[k] < other);
                }
            }
        }
        other = other + 1;
    }
    after
}

/// For every template, in order, the templates it has to run after.
pub fn schedule(templates: &Vec<TemplateInfo>) -> (order: Vec<Vec<usize>>)
    ensures
        order@.len() == templates@.len(),
        forall|i: int|
            0 <= i < templates@.len() ==> is_run_after(templates@, i, (#[trigger] order@[i])@),
{
    let mut order: Vec<Vec<usize>> = Vec::new();
    let mut index: usize = 0;
    while index < templates.len()
        invariant
            index <= templates@.len(),
            order@.len() == index,
            forall|i: int| 0 <= i < index ==> is_run_after(templates@, i, (#[trigger] order@[i])@),
        decreases templates@.len() - index,
    {
        let after = run_after(templates, index);
        order.push(after);
        index = index + 1;
    }
    order
}

/// Takes `new_state` for the stored snapshot where `differs` says so, and
/// keeps the stored one otherwise; returns `differs`.
pub fn replace_if<T>(new_state: Vec<T>, state: &mut Vec<T>, differs: bool) -> (changed: bool)
    ensures
        changed == differs,
        *final(state) == if differs {
            new_state
        } else {
            *old(state)
        },
{
    if differs {
        *state = new_state;
    }
    differs
}

/// Whether what a template reads has changed: compares a fresh snapshot with
/// the stored one by `==` and, where they differ, stores the fresh one.
pub fn is_changed<T: PartialEq>(new_state: Vec<T>, state: &mut Vec<T>) -> (changed: bool)
    ensures
        T::obeys_eq_spec() ==> changed == !new_state.eq_spec(old(state)),
        *final(state) == if changed {
            new_state
        } else {
            *old(state)
        },
{
    let differs = !(new_state == *state);
    replace_if(new_state, state, differs)
}

} // verus!
