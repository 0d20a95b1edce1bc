//! The project file tree: what a directory snapshot looks like, which of its
//! entries a project shows, and in which order siblings appear.

use crate::names::{is_hidden, is_hidden_name};
use crate::sibling_order::{shown_before, SortKey};
use crate::tree_laws::{lemma_shown_tree_well_formed, well_formed};
use vstd::prelude::*;
use vstd::string::*;

verus! {

/// What was found on disk at one path: the raw material of a project tree.
#[derive(Debug)]
pub enum DiskEntry {
    /// Anything that is not a directory.
    File { name: String },
    /// A directory together with everything found in it, in listing order.
    Directory { name: String, entries: Vec<DiskEntry> },
    /// A directory whose entries could not be listed, with the reason.
    Unreadable { name: String, reason: String },
}

impl DiskEntry {
    /// The entry's name within its directory.
    pub open spec fn name(self) -> Seq<char> {
        match self {
            DiskEntry::File { name } => name@,
            DiskEntry::Directory { name, .. } => name@,
            DiskEntry::Unreadable { name, .. } => name@,
        }
    }
}

/// One entry of the tree shown for a project.
#[derive(Debug)]
pub struct FileNode {
    /// Name of the entry within its directory.
    pub name: String,
    /// Path of the entry relative to the project root, empty for the root.
    pub path: String,
    /// Whether the entry is a directory.
    pub is_dir: bool,
    /// The shown entries of a directory, in display order; `None` for a file.
    pub children: Option<Vec<FileNode>>,
}

/// Mathematical model of a [`FileNode`].
pub struct NodeModel {
    pub name: Seq<char>,
    pub path: Seq<char>,
    pub is_dir: bool,
    pub children: Option<Seq<NodeModel>>,
}

impl FileNode {
    /// The model of this node and, through it, of everything below it.
    pub open spec fn model(self) -> NodeModel
        decreases self,
    {
        NodeModel {
            name: self.name@,
            path: self.path@,
            is_dir: self.is_dir,
            children: match self.children {
                None => None,
                Some(nodes) => Some(
                    Seq::new(
                        nodes@.len(),
                        |i: int|
                            if 0 <= i < nodes@.len() {
                                nodes@[i].model()
                            } else {
                                arbitrary()
                            },
                    ),
                ),
            },
        }
    }
}

impl View for FileNode {
    type V = NodeModel;

    open spec fn view(&self) -> NodeModel {
        self.model()
    }
}

/// The models of a run of nodes, in the same order.
pub open spec fn models_of(nodes: Seq<FileNode>) -> Seq<NodeModel> {
    Seq::new(nodes.len(), |i: int| nodes[i]@)
}

/// The children of a directory node are the models of its child nodes.
pub proof fn lemma_view_children(node: FileNode)
    ensures
        node@.name == node.name@,
        node@.path == node.path@,
        node@.is_dir == node.is_dir,
        node.children is None ==> node@.children is None,
        node.children matches Some(nodes) ==> node@.children == Some(models_of(nodes@)),
{
    match node.children {
        None => {},
        Some(nodes) => {
            assert(node@.children->0 =~= models_of(nodes@));
        },
    }
}

impl Clone for FileNode {
    fn clone(&self) -> (copy: FileNode)
        ensures
            copy@ == self@,
        decreases self,
    {
        let children = match &self.children {
            None => None,
            Some(nodes) => {
                let mut copies: Vec<FileNode> = Vec::new();
                let mut i: usize = 0;
                proof {
                    assert(decreases_to!(*self => *nodes));
                }
                while i < nodes.len()
                    invariant
                        i <= nodes.len(),
                        copies.len() == i,
                        decreases_to!(*self => *nodes),
                        forall|k: int| 0 <= k < i ==> copies@[k]@ == nodes@[k]@,
                    decreases nodes.len() - i,
                {
                    proof {
                        assert(decreases_to!(*nodes => nodes[i as int]));
                    }
                    let child = nodes[i].clone();
                    copies.push(child);
                    i = i + 1;
                }
                proof {
                    assert(models_of(copies@) =~= models_of(nodes@));
                }
                Some(copies)
            },
        };
        let copy = FileNode {
            name: self.name.clone(),
            path: self.path.clone(),
            is_dir: self.is_dir,
            children,
        };
        proof {
            lemma_view_children(copy);
            lemma_view_children(*self);
        }
        copy
    }
}

/// `a` is shown strictly before `b` among the entries of one directory.
pub open spec fn node_before(a: NodeModel, b: NodeModel) -> bool {
    shown_before(a.is_dir, a.name, b.is_dir, b.name)
}

/// Puts `x` into `siblings` in front of the first entry that is not shown
/// strictly before it.
pub open spec fn insert_sibling(x: NodeModel, siblings: Seq<NodeModel>) -> Seq<NodeModel>
    decreases siblings.len(),
{
    if siblings.len() == 0 {
        seq![x]
    } else if node_before(siblings[0], x) {
        seq![siblings[0]] + insert_sibling(x, siblings.drop_first())
    } else {
        seq![x] + siblings
    }
}

/// The display order of a directory's entries: each entry, taken from the
/// last to the first, is put in front of the first one that does not precede
/// it. Entries that compare equal keep the order in which they were listed.
pub open spec fn sort_siblings(siblings: Seq<NodeModel>) -> Seq<NodeModel>
    decreases siblings.len(),
{
    if siblings.len() == 0 {
        siblings
    } else {
        insert_sibling(siblings[0], sort_siblings(siblings.drop_first()))
    }
}

/// Inserting at the first position whose entry does not precede `x` is what
/// [`insert_sibling`] does.
pub proof fn lemma_insert_at(x: NodeModel, siblings: Seq<NodeModel>, pos: int)
    requires
        0 <= pos <= siblings.len(),
        forall|i: int| 0 <= i < pos ==> node_before(#[trigger] siblings[i], x),
        pos < siblings.len() ==> !node_before(siblings[pos], x),
    ensures
        insert_sibling(x, siblings) == siblings.insert(pos, x),
    decreases siblings.len(),
{
    if siblings.len() == 0 {
        assert(siblings.insert(pos, x) =~= seq![x]);
    } else if pos == 0 {
        assert(siblings.insert(0, x) =~= seq![x] + siblings);
    } else {
        let rest = siblings.drop_first();
        assert(node_before(siblings[0], x));
        assert forall|i: int| 0 <= i < pos - 1 implies node_before(#[trigger] rest[i], x) by {
            assert(rest[i] == siblings[i + 1]);
        }
        lemma_insert_at(x, rest, pos - 1);
        assert(siblings.insert(pos, x) =~= seq![siblings[0]] + rest.insert(pos - 1, x));
    }
}

/// The keys are those of the nodes, one for one.
spec fn keyed(keys: Seq<SortKey>, nodes: Seq<NodeModel>) -> bool {
    &&& keys.len() == nodes.len()
    &&& forall|i: int|
        0 <= i < keys.len() ==> (#[trigger] keys[i]).is_key_of(nodes[i].is_dir, nodes[i].name)
}

/// Finds where an entry with `key` goes among entries with `keys`: behind
/// every one that is shown strictly before it, in front of the first that
/// is not.
fn insertion_point(keys: &Vec<SortKey>, key: &SortKey) -> (pos: usize)
    ensures
        pos <= keys.len(),
        forall|i: int| 0 <= i < pos ==> (#[trigger] keys@[i]).precedes(*key),
        pos < keys.len() ==> !keys@[pos as int].precedes(*key),
{
    let mut pos: usize = 0;
    while pos < keys.len()
        invariant
            pos <= keys.len(),
            forall|i: int| 0 <= i < pos ==> (#[trigger] keys@[i]).precedes(*key),
        ensures
            pos <= keys.len(),
            forall|i: int| 0 <= i < pos ==> (#[trigger] keys@[i]).precedes(*key),
            pos < keys.len() ==> !keys@[pos as int].precedes(*key),
        decreases keys.len() - pos,
    {
        if !keys[pos].is_before(key) {
            break;
        }
        pos = pos + 1;
    }
    pos
}

/// Puts the entries of one directory into display order: directories first,
/// then by lower-cased name; entries that compare equal keep their order.
pub fn sort_nodes(nodes: Vec<FileNode>) -> (sorted: Vec<FileNode>)
    ensures
        models_of(sorted@) == sort_siblings(models_of(nodes@)),
{
    let ghost all = models_of(nodes@);
    let mut rest = nodes;
    let mut sorted: Vec<FileNode> = Vec::new();
    let mut keys: Vec<SortKey> = Vec::new();
    proof {
        assert(all.subrange(all.len() as int, all.len() as int) =~= Seq::empty());
        assert(models_of(sorted@) =~= Seq::empty());
    }
    while rest.len() > 0
        invariant
            rest.len() <= all.len(),
            models_of(rest@) == all.subrange(0, rest.len() as int),
            models_of(sorted@) == sort_siblings(all.subrange(rest.len() as int, all.len() as int)),
            keyed(keys@, models_of(sorted@)),
        decreases rest.len(),
    {
        let ghost before = rest@;
        let ghost placed = models_of(sorted@);
        let ghost placed_keys = keys@;
        let node = rest.pop().unwrap();
        proof {
            lemma_view_children(node);
        }
        let key = SortKey::of(node.is_dir, node.name.as_str());
        let pos = insertion_point(&keys, &key);
        proof {
            let k = rest.len() as int;
            assert(node@ == models_of(before)[k]);
            assert(node@ == all[k]);
            let tail = all.subrange(k, all.len() as int);
            assert(tail[0] == all[k]);
            assert(tail.drop_first() =~= all.subrange(k + 1, all.len() as int));
            assert forall|i: int| 0 <= i < pos implies node_before(#[trigger] placed[i], node@) by {
                assert(placed_keys[i].precedes(key));
            }
            if pos < placed.len() {
                assert(!placed_keys[pos as int].precedes(key));
            }
            lemma_insert_at(node@, placed, pos as int);
            assert(models_of(rest@) =~= all.subrange(0, k));
        }
        sorted.insert(pos, node);
        keys.insert(pos, key);
        proof {
            assert(models_of(sorted@) =~= placed.insert(pos as int, node@));
            assert forall|i: int| 0 <= i < keys@.len() implies (#[trigger] keys@[i]).is_key_of(
                models_of(sorted@)[i].is_dir,
                models_of(sorted@)[i].name,
            ) by {
                if i < pos {
                    assert(keys@[i] == placed_keys[i]);
                } else if i > pos {
                    assert(keys@[i] == placed_keys[i - 1]);
                }
            }
        }
    }
    proof {
        assert(all.subrange(0, all.len() as int) =~= all);
    }
    sorted
}

/// Separates the components of a node's relative path.
pub const PATH_SEPARATOR: char = '/';

/// The relative path of an entry called `name` inside the directory whose
/// relative path is `parent`; entries of the root are named by themselves.
pub open spec fn child_path(parent: Seq<char>, name: Seq<char>) -> Seq<char> {
    if parent.len() == 0 {
        name
    } else {
        parent.push(PATH_SEPARATOR) + name
    }
}

/// The values of the `Some` items, in their order.
pub open spec fn present<T>(items: Seq<Option<T>>) -> Seq<T>
    decreases items.len(),
{
    if items.len() == 0 {
        Seq::empty()
    } else {
        match items.last() {
            Some(item) => present(items.drop_last()).push(item),
            None => present(items.drop_last()),
        }
    }
}

/// The tree shown for what was found at one path, given the relative path
/// it gets; `None` for a directory that could not be listed.
///
/// A directory shows its entries except the hidden ones and the directories
/// that could not be listed, each with its own tree, in display order.
pub open spec fn shown_tree(entry: DiskEntry, path: Seq<char>) -> Option<NodeModel>
    decreases entry, 0nat,
{
    match entry {
        DiskEntry::File { name } => Some(
            NodeModel { name: name@, path, is_dir: false, children: None },
        ),
        DiskEntry::Unreadable { .. } => None,
        DiskEntry::Directory { name, entries } => Some(
            NodeModel {
                name: name@,
                path,
                is_dir: true,
                children: Some(sort_siblings(present(shown_entries(entries@, path)))),
            },
        ),
    }
}

/// What each entry of a directory contributes to the directory's tree, in
/// listing order: nothing when it is hidden or cannot be listed, else its
/// own tree.
pub open spec fn shown_entries(entries: Seq<DiskEntry>, parent: Seq<char>) -> Seq<
    Option<NodeModel>,
>
    decreases entries, 1nat,
{
    Seq::new(
        entries.len(),
        |i: int|
            if 0 <= i < entries.len() && !is_hidden_name(entries[i].name()) {
                shown_tree(entries[i], child_path(parent, entries[i].name()))
            } else {
                None
            },
    )
}

/// What one entry of a directory contributes to the directory's tree.
pub open spec fn shown_entry(entry: DiskEntry, parent: Seq<char>) -> Option<NodeModel> {
    if is_hidden_name(entry.name()) {
        None
    } else {
        shown_tree(entry, child_path(parent, entry.name()))
    }
}

/// The text reported when the directory at `path` could not be listed.
pub open spec fn unreadable_message(path: Seq<char>, reason: Seq<char>) -> Seq<char> {
    "Failed to read directory "@ + path + ": "@ + reason
}

/// Computes the relative path of an entry inside the directory at `parent`.
pub fn join_child_path(parent: &str, name: &str) -> (path: String)
    ensures
        path@ == child_path(parent@, name@),
{
    if parent.is_empty() {
        name.to_owned()
    } else {
        let mut path = parent.to_owned();
        proof {
            reveal_strlit("/");
        }
        path.append("/");
        path.append(name);
        proof {
            assert(path@ =~= parent@.push(PATH_SEPARATOR) + name@);
        }
        path
    }
}

/// The name under which an entry was found.
fn entry_name(entry: &DiskEntry) -> (name: &String)
    ensures
        name@ == entry.name(),
{
    match entry {
        DiskEntry::File { name } => name,
        DiskEntry::Directory { name, .. } => name,
        DiskEntry::Unreadable { name, .. } => name,
    }
}

/// Builds the tree shown for `entry` under the relative path `path`.
fn build_entry(entry: &DiskEntry, path: String) -> (node: Option<FileNode>)
    ensures
        match shown_tree(*entry, path@) {
            Some(model) => node matches Some(built) && built@ == model,
            None => node is None,
        },
    decreases entry,
{
    match entry {
        DiskEntry::File { name } => {
            let built = FileNode { name: name.clone(), path, is_dir: false, children: None };
            proof {
                lemma_view_children(built);
            }
            Some(built)
        },
        DiskEntry::Unreadable { .. } => None,
        DiskEntry::Directory { name, entries } => {
            let ghost contributions = shown_entries(entries@, path@);
            let mut shown: Vec<FileNode> = Vec::new();
            let mut i: usize = 0;
            proof {
                assert(contributions.subrange(0, 0) =~= Seq::empty());
                assert(models_of(shown@) =~= Seq::empty());
                assert(decreases_to!(*entry => *entries));
            }
            while i < entries.len()
                invariant
                    i <= entries.len(),
                    decreases_to!(*entry => *entries),
                    contributions == shown_entries(entries@, path@),
                    models_of(shown@) == present(contributions.subrange(0, i as int)),
                decreases entries.len() - i,
            {
                let child = &entries[i];
                let child_name = entry_name(child);
                let ghost before = models_of(shown@);
                proof {
                    let upto = contributions.subrange(0, i + 1);
                    assert(upto.drop_last() =~= contributions.subrange(0, i as int));
                    assert(upto.last() == shown_entry(*child, path@));
                    assert(decreases_to!(*entries => entries[i as int]));
                }
                if !is_hidden(child_name.as_str()) {
                    let child_path = join_child_path(path.as_str(), child_name.as_str());
                    match build_entry(child, child_path) {
                        Some(built) => {
                            shown.push(built);
                            proof {
                                assert(models_of(shown@) =~= before.push(built@));
                            }
                        },
                        None => {},
                    }
                }
                i = i + 1;
            }
            proof {
                assert(contributions.subrange(0, entries.len() as int) =~= contributions);
            }
            let children = sort_nodes(shown);
            let built = FileNode {
                name: name.clone(),
                path,
                is_dir: true,
                children: Some(children),
            };
            proof {
                lemma_view_children(built);
            }
            Some(built)
        },
    }
}

/// Builds the tree shown for a project from what was found at its root.
///
/// Hidden entries and directories that could not be listed are left out;
/// siblings come in display order. Only a root that could not be listed is
/// an error, reported with the root's path and the reason.
pub fn build_file_tree(root_path: &str, root: &DiskEntry) -> (result: Result<FileNode, String>)
    ensures
        match shown_tree(*root, Seq::empty()) {
            Some(model) => result matches Ok(node) && node@ == model,
            None => result matches Err(message) && root matches DiskEntry::Unreadable { reason, .. }
                && message@ == unreadable_message(root_path@, reason@),
        },
        result matches Ok(node) ==> well_formed(node@),
{
    proof {
        lemma_shown_tree_well_formed(*root, Seq::empty());
    }
    match build_entry(root, String::new()) {
        Some(node) => Ok(node),
        None => {
            match root {
                DiskEntry::Unreadable { reason, .. } => {
                    let mut message = "Failed to read directory ".to_owned();
                    message.append(root_path);
                    message.append(": ");
                    message.append(reason.as_str());
                    Err(message)
                },
                _ => {
                    proof {
                        assert(false);
                    }
                    Err(String::new())
                },
            }
        },
    }
}

} // verus!
