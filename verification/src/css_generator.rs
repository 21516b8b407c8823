//! The stylesheet of a chunk: the sources of its CSS modules, in the order
//! in which the modules execute.

use vstd::prelude::*;
use vstd::string::StringExecFns;
use crate::paths::{join, parent_of, path_joined, path_parent};

verus! {

/// Puts the stylesheet of a chunk together.
#[derive(Clone, Copy, Debug)]
pub struct CssGenerator;

/// A CSS module of a chunk: its place in the order of execution, and its
/// source with the module's own changes applied.
#[derive(Debug)]
pub struct CssModule {
    pub exec_order: u32,
    pub source: String,
}

/// A CSS module, by its characters.
pub struct CssModuleView {
    pub exec_order: u32,
    pub source: Seq<char>,
}

impl View for CssModule {
    type V = CssModuleView;

    open spec fn view(&self) -> CssModuleView {
        CssModuleView { exec_order: self.exec_order, source: self.source@ }
    }
}

/// The views of a list of modules.
pub open spec fn module_views(modules: Seq<CssModule>) -> Seq<CssModuleView> {
    modules.map_values(|m: CssModule| m@)
}

/// A list in execution order with one more module: it goes behind every
/// module that executes no later than it does.
pub open spec fn insert_in_order(sorted: Seq<CssModuleView>, module: CssModuleView) -> Seq<
    CssModuleView,
>
    decreases sorted.len(),
{
    if sorted.len() == 0 || sorted.last().exec_order <= module.exec_order {
        sorted.push(module)
    } else {
        insert_in_order(sorted.drop_last(), module).push(sorted.last())
    }
}

/// The modules in execution order; modules of one order keep the order in
/// which the chunk lists them.
pub open spec fn in_exec_order(modules: Seq<CssModuleView>) -> Seq<CssModuleView>
    decreases modules.len(),
{
    if modules.len() == 0 {
        Seq::empty()
    } else {
        insert_in_order(in_exec_order(modules.drop_last()), modules.last())
    }
}

/// The sources of the modules one after the other, each followed by a line
/// break.
pub open spec fn stylesheet(modules: Seq<CssModuleView>) -> Seq<char>
    decreases modules.len(),
{
    if modules.len() == 0 {
        Seq::empty()
    } else {
        stylesheet(modules.drop_last()) + modules.last().source + seq!['\n']
    }
}

/// Whether a list is in execution order.
pub open spec fn is_in_exec_order(modules: Seq<CssModuleView>) -> bool {
    forall|i: int, j: int|
        0 <= i <= j < modules.len() ==> modules[i].exec_order <= modules[j].exec_order
}

/// Where a module goes in a list in execution order: behind the module at
/// `at - 1`, which executes no later, and before those from `at` on, which
/// all execute later.
proof fn lemma_insert_place(sorted: Seq<CssModuleView>, module: CssModuleView, at: int)
    requires
        0 <= at <= sorted.len(),
        forall|j: int| at <= j < sorted.len() ==> sorted[j].exec_order > module.exec_order,
        at > 0 ==> sorted[at - 1].exec_order <= module.exec_order,
    ensures
        insert_in_order(sorted, module) == sorted.insert(at, module),
    decreases sorted.len(),
{
    if at == sorted.len() {
        assert(sorted.push(module) =~= sorted.insert(at, module));
    } else {
        lemma_insert_place(sorted.drop_last(), module, at);
        assert(sorted.drop_last().insert(at, module).push(sorted.last()) =~= sorted.insert(
            at,
            module,
        ));
    }
}

/// Inserting keeps a list in execution order, and adds the module to what
/// the list holds.
pub proof fn lemma_insert_in_order(sorted: Seq<CssModuleView>, module: CssModuleView)
    requires
        is_in_exec_order(sorted),
    ensures
        is_in_exec_order(insert_in_order(sorted, module)),
        insert_in_order(sorted, module).to_multiset() == sorted.to_multiset().insert(module),
    decreases sorted.len(),
{
    broadcast use vstd::seq_lib::group_to_multiset_ensures;

    if sorted.len() == 0 || sorted.last().exec_order <= module.exec_order {
    } else {
        let front = sorted.drop_last();
        lemma_insert_in_order(front, module);
        let placed = insert_in_order(front, module);
        assert(front.push(sorted.last()) =~= sorted);
        assert forall|i: int, j: int| 0 <= i <= j < placed.push(sorted.last()).len() implies placed.push(
            sorted.last(),
        )[i].exec_order <= placed.push(sorted.last())[j].exec_order by {
            if j == placed.len() && i < placed.len() {
                assert(placed.to_multiset().count(placed[i]) > 0);
                if placed[i] != module {
                    assert(front.to_multiset().count(placed[i]) > 0);
                    assert(front.contains(placed[i]));
                    let k = choose|k: int| 0 <= k < front.len() && front[k] == placed[i];
                    assert(sorted[k].exec_order <= sorted[sorted.len() - 1].exec_order);
                }
            }
        }
        assert(placed.push(sorted.last()).to_multiset() =~= sorted.to_multiset().insert(module));
    }
}

/// The modules in execution order are in execution order, and they are the
/// modules of the list, each as often as the list holds it.
pub proof fn law_in_exec_order(modules: Seq<CssModuleView>)
    ensures
        is_in_exec_order(in_exec_order(modules)),
        in_exec_order(modules).to_multiset() == modules.to_multiset(),
        in_exec_order(modules).len() == modules.len(),
    decreases modules.len(),
{
    broadcast use vstd::seq_lib::group_to_multiset_ensures;

    if modules.len() > 0 {
        law_in_exec_order(modules.drop_last());
        lemma_insert_in_order(in_exec_order(modules.drop_last()), modules.last());
        assert(modules.drop_last().push(modules.last()) =~= modules);
    }
    assert(in_exec_order(modules).to_multiset().len() == modules.to_multiset().len());
}

/// Whether a module is of a given order.
pub open spec fn of_order(order: u32) -> spec_fn(CssModuleView) -> bool {
    |module: CssModuleView| module.exec_order == order
}

/// Inserting a module puts it behind the modules of its own order and
/// leaves the modules of every other order as they were.
proof fn lemma_insert_keeps_place(sorted: Seq<CssModuleView>, module: CssModuleView, order: u32)
    ensures
        insert_in_order(sorted, module).filter(of_order(order)) == if module.exec_order == order {
            sorted.filter(of_order(order)).push(module)
        } else {
            sorted.filter(of_order(order))
        },
    decreases sorted.len(),
{
    reveal(Seq::filter);
    let placed = insert_in_order(sorted, module);
    if sorted.len() == 0 || sorted.last().exec_order <= module.exec_order {
        assert(placed.drop_last() =~= sorted);
    } else {
        let front = sorted.drop_last();
        lemma_insert_keeps_place(front, module, order);
        assert(placed.drop_last() =~= insert_in_order(front, module));
        assert(placed.last() == sorted.last());
    }
}

/// Modules of one order keep the order in which the chunk lists them: for
/// every order, the modules of that order are the same sequence in
/// execution order as in the list.
pub proof fn law_same_order_keeps_place(modules: Seq<CssModuleView>, order: u32)
    ensures
        in_exec_order(modules).filter(of_order(order)) == modules.filter(of_order(order)),
    decreases modules.len(),
{
    reveal(Seq::filter);
    if modules.len() > 0 {
        law_same_order_keeps_place(modules.drop_last(), order);
        lemma_insert_keeps_place(in_exec_order(modules.drop_last()), modules.last(), order);
    } else {
        assert(in_exec_order(modules) =~= modules);
    }
}

/// The modules that a list of positions picks, in the order of the list.
pub open spec fn picked(modules: Seq<CssModule>, positions: Seq<usize>) -> Seq<CssModuleView>
    recommends
        forall|i: int| 0 <= i < positions.len() ==> positions[i] < modules.len(),
{
    Seq::new(positions.len(), |i: int| modules[positions[i] as int]@)
}

/// The positions of the modules, in execution order.
fn positions_in_exec_order(modules: &Vec<CssModule>) -> (positions: Vec<usize>)
    ensures
        positions.len() == modules.len(),
        forall|i: int| 0 <= i < positions.len() ==> positions[i] < modules.len(),
        picked(modules@, positions@) == in_exec_order(module_views(modules@)),
{
    let mut positions: Vec<usize> = Vec::new();
    let mut next: usize = 0;
    assert(module_views(modules@).take(0) =~= Seq::empty());
    assert(picked(modules@, positions@) =~= Seq::empty());
    while next < modules.len()
        invariant
            next <= modules.len(),
            positions.len() == next,
            forall|i: int| 0 <= i < positions.len() ==> positions[i] < modules.len(),
            picked(modules@, positions@) == in_exec_order(module_views(modules@).take(next as int)),
        decreases modules.len() - next,
    {
        let order = modules[next].exec_order;
        let mut at: usize = positions.len();
        while at > 0 && modules[positions[at - 1]].exec_order > order
            invariant
                at <= positions.len(),
                next < modules.len(),
                order == modules@[next as int].exec_order,
                forall|i: int| 0 <= i < positions.len() ==> positions[i] < modules.len(),
                forall|j: int|
                    at <= j < positions.len() ==> modules@[positions@[j] as int].exec_order > order,
            decreases at,
        {
            at -= 1;
        }
        let ghost before = positions@;
        let ghost sorted = picked(modules@, before);
        positions.insert(at, next);
        proof {
            let views = module_views(modules@);
            lemma_insert_place(sorted, modules@[next as int]@, at as int);
            assert(picked(modules@, positions@) =~= sorted.insert(at as int, modules@[next as int]@));
            assert(views.take(next + 1).drop_last() =~= views.take(next as int));
            assert(views.take(next + 1).last() == modules@[next as int]@);
        }
        next += 1;
    }
    assert(module_views(modules@).take(modules.len() as int) =~= module_views(modules@));
    positions
}

impl CssGenerator {
    /// The stylesheet of a chunk with these CSS modules: their sources in
    /// execution order, each followed by a line break. A chunk without CSS
    /// modules has no stylesheet.
    pub fn instantiate_chunk(modules: &Vec<CssModule>) -> (content: Option<String>)
        ensures
            modules.len() == 0 ==> content is None,
            modules.len() > 0 ==> content.deep_view() == Some(
                stylesheet(in_exec_order(module_views(modules@))),
            ),
    {
        if modules.len() == 0 {
            return None;
        }
        let positions = positions_in_exec_order(modules);
        let mut content = String::new();
        let mut i: usize = 0;
        assert(picked(modules@, positions@).take(0) =~= Seq::empty());
        while i < positions.len()
            invariant
                i <= positions.len(),
                forall|j: int| 0 <= j < positions.len() ==> positions[j] < modules.len(),
                content@ == stylesheet(picked(modules@, positions@).take(i as int)),
            decreases positions.len() - i,
        {
            proof {
                reveal_strlit("\n");
                let all = picked(modules@, positions@);
                assert(all.take(i + 1).drop_last() =~= all.take(i as int));
                assert(all.take(i + 1).last() == modules@[positions@[i as int] as int]@);
                assert("\n"@ =~= seq!['\n']);
            }
            content.append(modules[positions[i]].source.as_str());
            content.append("\n");
            i += 1;
        }
        assert(picked(modules@, positions@).take(positions.len() as int) =~= picked(
            modules@,
            positions@,
        ));
        Some(content)
    }

    /// The directory that a chunk's file goes to: the parent of the file
    /// name under the output directory `dir` under `cwd`. The file name
    /// may hold directories of its own.
    pub fn file_dir(cwd: &str, dir: &str, preliminary_filename: &str) -> (directory: Option<String>)
        ensures
            directory.deep_view() == path_parent(
                path_joined(path_joined(cwd@, dir@), preliminary_filename@),
            ),
    {
        let output = join(cwd, dir);
        let file = join(output.as_str(), preliminary_filename);
        parent_of(file.as_str())
    }
}

} // verus!
