//! The scratch directory of one container under the cache root: which name
//! may be used for it, and the steps that leave it existing and empty.
use vstd::prelude::*;
use vstd::string::*;

verus! {

/// Whether `name` is a single, ordinary path component, so that joining it
/// to the cache root names a directory directly inside the root.
pub open spec fn is_safe_name_spec(name: Seq<char>) -> bool {
    &&& name.len() > 0
    &&& name != "."@
    &&& name != ".."@
    &&& forall|i: int| 0 <= i < name.len() ==> name[i] != '/' && name[i] != '\\' && name[i] != '\0'
}

/// Checks that `name` can name a scratch directory inside the cache root.
pub fn is_safe_name(name: &str) -> (r: bool)
    ensures
        r == is_safe_name_spec(name@),
{
    let n = name.unicode_len();
    if n == 0 {
        return false;
    }
    let mut i: usize = 0;
    while i < n
        invariant
            n == name@.len(),
            i <= n,
            forall|j: int| 0 <= j < i ==> name@[j] != '/' && name@[j] != '\\' && name@[j] != '\0',
        decreases n - i,
    {
        let c = name.get_char(i);
        if c == '/' || c == '\\' || c == '\0' {
            return false;
        }
        i = i + 1;
    }
    if n == 1 && name.get_char(0) == '.' {
        proof {
            assert(name@ =~= "."@) by {
                reveal_strlit(".");
            }
        }
        return false;
    }
    if n == 2 && name.get_char(0) == '.' && name.get_char(1) == '.' {
        proof {
            assert(name@ =~= ".."@) by {
                reveal_strlit("..");
            }
        }
        return false;
    }
    proof {
        reveal_strlit(".");
        reveal_strlit("..");
        if name@ == "."@ {
            assert(name@.len() == 1 && name@[0] == '.');
        }
        if name@ == ".."@ {
            assert(name@.len() == 2 && name@[0] == '.' && name@[1] == '.');
        }
    }
    true
}

/// An entry found inside the scratch directory.
pub struct DirEntryInfo {
    pub name: String,
    pub is_dir: bool,
}

/// What is found at the scratch directory's path.
pub enum TargetState {
    Missing,
    File,
    Directory(Vec<DirEntryInfo>),
}

/// A step on the file system.
pub enum CacheAction {
    /// Create the scratch directory.
    CreateDir,
    /// Remove the file that stands at the scratch directory's path.
    RemoveFile,
    /// Remove an entry inside the scratch directory, with its contents
    /// where it is a directory.
    RemoveEntry { name: String, is_dir: bool },
}

/// The scratch directory's path as a model: missing, a file, or a directory
/// holding a set of entry names.
pub enum NodeModel {
    Missing,
    File,
    Directory(Set<Seq<char>>),
}

/// A step as a model.
pub enum StepModel {
    CreateDir,
    RemoveFile,
    RemoveEntry(Seq<char>),
}

/// What one step does.
pub open spec fn apply_step(n: NodeModel, a: StepModel) -> NodeModel {
    match (n, a) {
        (NodeModel::Missing, StepModel::CreateDir) => NodeModel::Directory(Set::empty()),
        (NodeModel::File, StepModel::RemoveFile) => NodeModel::Missing,
        (NodeModel::Directory(s), StepModel::RemoveEntry(c)) => NodeModel::Directory(s.remove(c)),
        _ => n,
    }
}

/// What a list of steps does, first to last.
pub open spec fn apply_steps(n: NodeModel, steps: Seq<StepModel>) -> NodeModel
    decreases steps.len(),
{
    if steps.len() == 0 {
        n
    } else {
        apply_step(apply_steps(n, steps.drop_last()), steps.last())
    }
}

/// The names of a directory listing.
pub open spec fn entry_names(entries: Seq<DirEntryInfo>) -> Seq<Seq<char>> {
    entries.map_values(|e: DirEntryInfo| e.name@)
}

/// The model of what was found.
pub open spec fn model_of(t: TargetState) -> NodeModel {
    match t {
        TargetState::Missing => NodeModel::Missing,
        TargetState::File => NodeModel::File,
        TargetState::Directory(entries) => NodeModel::Directory(
            Set::new(|c: Seq<char>| entry_names(entries@).contains(c)),
        ),
    }
}

/// The models of a list of actions.
pub open spec fn steps_of(actions: Seq<CacheAction>) -> Seq<StepModel> {
    actions.map_values(|a: CacheAction| step_of(a))
}

/// Steps that remove the entries `names`, in order.
pub open spec fn removals(names: Seq<Seq<char>>) -> Seq<StepModel> {
    names.map_values(|c: Seq<char>| StepModel::RemoveEntry(c))
}

/// The model of a step.
pub open spec fn step_of(a: CacheAction) -> StepModel {
    match a {
        CacheAction::CreateDir => StepModel::CreateDir,
        CacheAction::RemoveFile => StepModel::RemoveFile,
        CacheAction::RemoveEntry { name, .. } => StepModel::RemoveEntry(name@),
    }
}

/// The steps that clean what was found: create a missing directory,
/// replace a file by a directory, and remove each entry of a directory;
/// the directory itself is never removed.
pub open spec fn clean_steps(t: NodeModel, names: Seq<Seq<char>>) -> Seq<StepModel> {
    match t {
        NodeModel::Missing => seq![StepModel::CreateDir],
        NodeModel::File => seq![StepModel::RemoveFile, StepModel::CreateDir],
        NodeModel::Directory(_) => removals(names),
    }
}

/// Every step either acts on the directory's own path or removes one of
/// the entries `names` found inside it.
pub open spec fn steps_stay_inside(steps: Seq<StepModel>, names: Seq<Seq<char>>) -> bool {
    forall|i: int|
        0 <= i < steps.len() ==> (#[trigger] steps[i] matches StepModel::RemoveEntry(c)
            ==> names.contains(c))
}

/// Removing the entries `names` from a directory removes exactly them.
proof fn lemma_remove_all(s: Set<Seq<char>>, names: Seq<Seq<char>>)
    ensures
        apply_steps(
            NodeModel::Directory(s),
            removals(names),
        ) == NodeModel::Directory(s.difference(Set::new(|c: Seq<char>| names.contains(c)))),
    decreases names.len(),
{
    let steps = removals(names);
    if names.len() == 0 {
        assert(s.difference(Set::new(|c: Seq<char>| names.contains(c))) =~= s);
    } else {
        let front = names.drop_last();
        lemma_remove_all(s, front);
        assert(steps.drop_last() =~= removals(front));
        assert(s.difference(Set::new(|c: Seq<char>| front.contains(c))).remove(names.last())
            =~= s.difference(Set::new(|c: Seq<char>| names.contains(c)))) by {
            assert forall|c: Seq<char>| names.contains(c) <==> (front.contains(c) || c
                == names.last()) by {
                if names.contains(c) {
                    let i = choose|i: int| 0 <= i < names.len() && names[i] == c;
                    if i < names.len() - 1 {
                        assert(front[i] == c);
                    }
                }
                if front.contains(c) {
                    let i = choose|i: int| 0 <= i < front.len() && front[i] == c;
                    assert(names[i] == c);
                }
                if c == names.last() {
                    assert(names[names.len() - 1] == c);
                }
            }
        }
    }
}

/// Cleaning the scratch directory leaves it existing and empty, and
/// cleaning it again then has nothing to do; no step touches anything but
/// the directory's own path and the entries found inside it.
pub proof fn lemma_clean_twice(t: TargetState)
    ensures
        ({
            let names = match t {
                TargetState::Directory(entries) => entry_names(entries@),
                _ => Seq::empty(),
            };
            let once = apply_steps(model_of(t), clean_steps(model_of(t), names));
            &&& once == NodeModel::Directory(Set::empty())
            &&& clean_steps(once, Seq::empty()).len() == 0
            &&& apply_steps(once, clean_steps(once, Seq::empty())) == once
            &&& steps_stay_inside(clean_steps(model_of(t), names), names)
        }),
{
    match t {
        TargetState::Missing => {
            let steps = seq![StepModel::CreateDir];
            assert(steps.drop_last() =~= Seq::<StepModel>::empty());
        },
        TargetState::File => {
            let steps = seq![StepModel::RemoveFile, StepModel::CreateDir];
            assert(steps.drop_last() =~= seq![StepModel::RemoveFile]);
            assert(steps.drop_last().drop_last() =~= Seq::<StepModel>::empty());
            reveal_with_fuel(apply_steps, 3);
        },
        TargetState::Directory(entries) => {
            let names = entry_names(entries@);
            let s = Set::new(|c: Seq<char>| names.contains(c));
            lemma_remove_all(s, names);
            assert(s.difference(s) =~= Set::<Seq<char>>::empty());
            let steps = removals(names);
            assert forall|i: int| 0 <= i < steps.len() implies (#[trigger] steps[i] matches StepModel::RemoveEntry(
                c,
            ) ==> names.contains(c)) by {
                assert(names[i] == names[i]);
            }
        },
    }
    let empty = NodeModel::Directory(Set::empty());
    assert(clean_steps(empty, Seq::empty()) =~= Seq::<StepModel>::empty());
}

/// The steps that leave the scratch directory existing and empty, given
/// what was found at its path.
pub fn clean_plan(found: &TargetState) -> (r: Vec<CacheAction>)
    ensures
        steps_of(r@) == clean_steps(
            model_of(*found),
            match *found {
                TargetState::Directory(entries) => entry_names(entries@),
                _ => Seq::empty(),
            },
        ),
{
    let mut plan: Vec<CacheAction> = Vec::new();
    match found {
        TargetState::Missing => {
            plan.push(CacheAction::CreateDir);
            assert(steps_of(plan@) =~= seq![StepModel::CreateDir]);
        },
        TargetState::File => {
            plan.push(CacheAction::RemoveFile);
            plan.push(CacheAction::CreateDir);
            assert(steps_of(plan@) =~= seq![
                StepModel::RemoveFile,
                StepModel::CreateDir,
            ]);
        },
        TargetState::Directory(entries) => {
            let mut i: usize = 0;
            while i < entries.len()
                invariant
                    i <= entries@.len(),
                    steps_of(plan@) =~= removals(entry_names(entries@).subrange(0, i as int)),
                decreases entries@.len() - i,
            {
                let entry = &entries[i];
                let ghost prev = plan@;
                plan.push(
                    CacheAction::RemoveEntry {
                        name: String::from_str(entry.name.as_str()),
                        is_dir: entry.is_dir,
                    },
                );
                i = i + 1;
                proof {
                    let names = entry_names(entries@);
                    assert(names[i - 1] == entries@[i - 1].name@);
                    assert(steps_of(prev).len() == prev.len());
                    assert(removals(names.subrange(0, i - 1)).len() == i - 1);
                    assert(prev.len() == i - 1);
                    assert(plan@ == prev.push(plan@.last()));
                    assert forall|k: int| 0 <= k < i implies #[trigger] steps_of(plan@)[k] == removals(names.subrange(0, i as int))[k] by {
                        if k < i - 1 {
                            assert(plan@[k] == prev[k]);
                            assert(steps_of(prev)[k] == removals(names.subrange(0, i - 1))[k]);
                        }
                    }
                    assert(steps_of(plan@) =~= removals(names.subrange(0, i as int)));
                }
            }
            assert(entry_names(entries@).subrange(0, entries@.len() as int) =~= entry_names(
                entries@,
            ));
        },
    }
    plan
}

} // verus!
