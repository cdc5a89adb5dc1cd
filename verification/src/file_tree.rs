use vstd::prelude::*;
use vstd::string::*;
use crate::definitions::texts;
use crate::error::ScaffoldError;

verus! {

/// A directory subtree held in memory: a file with its content, or a
/// directory with its named children.
#[derive(Debug, PartialEq, Eq)]
pub enum FileTree {
    File(String),
    Directory(Vec<DirEntry>),
}

/// A child of a directory.
#[derive(Debug, PartialEq, Eq)]
pub struct DirEntry {
    pub name: String,
    pub node: FileTree,
}

/// The first position at or after `from` whose entry is called `name`, or the
/// number of entries where there is none.
pub open spec fn position(entries: Seq<DirEntry>, name: Seq<char>, from: int) -> int
    decreases entries.len() - from,
{
    if from >= entries.len() {
        entries.len() as int
    } else if entries[from].name@ == name {
        from
    } else {
        position(entries, name, from + 1)
    }
}

/// Some entry is called `name`.
pub open spec fn has_child(entries: Seq<DirEntry>, name: Seq<char>) -> bool {
    position(entries, name, 0) < entries.len()
}

/// No two entries have the same name.
pub open spec fn names_unique(entries: Seq<DirEntry>) -> bool {
    forall|i: int, j: int|
        0 <= i < j < entries.len() ==> (#[trigger] entries[i]).name@ != (#[trigger] entries[j]).name@
}

pub proof fn position_bounds(entries: Seq<DirEntry>, name: Seq<char>, from: int)
    requires
        0 <= from <= entries.len(),
    ensures
        from <= position(entries, name, from) <= entries.len(),
        position(entries, name, from) < entries.len() ==> entries[position(
            entries,
            name,
            from,
        )].name@ == name,
        forall|k: int| from <= k < position(entries, name, from) ==> (#[trigger] entries[k]).name@ != name,
    decreases entries.len() - from,
{
    if from < entries.len() && entries[from].name@ != name {
        position_bounds(entries, name, from + 1);
    }
}

/// Among entries with unique names, an entry stands at the position of its
/// name.
pub proof fn position_of_entry(entries: Seq<DirEntry>, at: int)
    requires
        names_unique(entries),
        0 <= at < entries.len(),
    ensures
        position(entries, entries[at].name@, 0) == at,
{
    position_bounds(entries, entries[at].name@, 0);
}

impl FileTree {
    /// Within every directory of the tree the children's names are unique.
    pub open spec fn wf(&self) -> bool
        decreases self,
    {
        match self {
            FileTree::File(_) => true,
            FileTree::Directory(entries) => names_unique(entries@) && forall|i: int|
                0 <= i < entries@.len() ==> (#[trigger] entries@[i]).node.wf(),
        }
    }

    /// The node that stands at `path` below this one, each segment naming a
    /// child of the directory before it.
    pub open spec fn lookup(&self, path: Seq<Seq<char>>) -> Option<FileTree>
        decreases path.len(),
    {
        if path.len() == 0 {
            Some(*self)
        } else {
            match self {
                FileTree::File(_) => None,
                FileTree::Directory(entries) => {
                    let at = position(entries@, path[0], 0);
                    if 0 <= at < entries@.len() {
                        entries@[at].node.lookup(path.drop_first())
                    } else {
                        None
                    }
                },
            }
        }
    }

    /// The node at `segments`, if there is one.
    pub fn path(&self, segments: &Vec<String>) -> (found: Option<&FileTree>)
        ensures
            match found {
                Some(node) => self.lookup(texts(segments@)) == Some(*node),
                None => self.lookup(texts(segments@)) is None,
            },
    {
        let ghost names = texts(segments@);
        let mut current: &FileTree = self;
        let mut i: usize = 0;
        assert(names.subrange(0, names.len() as int) =~= names);
        while i < segments.len()
            invariant
                0 <= i <= segments@.len(),
                names == texts(segments@),
                self.lookup(names) == current.lookup(names.subrange(i as int, names.len() as int)),
            decreases segments@.len() - i,
        {
            let ghost rest = names.subrange(i as int, names.len() as int);
            assert(rest[0] == segments@[i as int]@);
            assert(rest.drop_first() =~= names.subrange(i + 1, names.len() as int));
            match current {
                FileTree::File(_) => {
                    return None;
                },
                FileTree::Directory(entries) => {
                    match find_child(entries, segments[i].as_str()) {
                        None => {
                            return None;
                        },
                        Some(at) => {
                            current = &entries[at].node;
                        },
                    }
                },
            }
            i = i + 1;
        }
        assert(names.subrange(i as int, names.len() as int).len() == 0);
        Some(current)
    }

    /// The content of this node, where it is a file.
    pub fn file_content(&self) -> (content: Option<&String>)
        ensures
            match *self {
                FileTree::File(text) => content == Some(&text),
                FileTree::Directory(_) => content is None,
            },
    {
        match self {
            FileTree::File(text) => Some(text),
            FileTree::Directory(_) => None,
        }
    }
}

/// Finds the first entry called `name`.
pub fn find_child(entries: &Vec<DirEntry>, name: &str) -> (found: Option<usize>)
    ensures
        match found {
            Some(at) => at == position(entries@, name@, 0) && at < entries@.len(),
            None => !has_child(entries@, name@),
        },
{
    let wanted = String::from_str(name);
    let mut i: usize = 0;
    while i < entries.len()
        invariant
            0 <= i <= entries@.len(),
            wanted@ == name@,
            position(entries@, name@, 0) == position(entries@, name@, i as int),
        decreases entries@.len() - i,
    {
        if entries[i].name == wanted {
            return Some(i);
        }
        i = i + 1;
    }
    None
}

/// A child of a directory is a smaller tree than the directory.
pub proof fn child_is_smaller(tree: FileTree, entries: Vec<DirEntry>, at: int)
    requires
        tree == FileTree::Directory(entries),
        0 <= at < entries@.len(),
    ensures
        decreases_to!(tree => entries@[at].node),
{
    assert(decreases_to!(tree => tree->Directory_0));
    assert(decreases_to!(entries => entries[at]));
    assert(decreases_to!(entries[at] => entries[at].node));
}

/// Two trees hold the same: the same text in a file, and in a directory the
/// same names in the same order, each over the same tree.
pub open spec fn same_tree(left: FileTree, right: FileTree) -> bool
    decreases left,
{
    match (left, right) {
        (FileTree::File(one), FileTree::File(other)) => one@ == other@,
        (FileTree::Directory(ones), FileTree::Directory(others)) => ones@.len() == others@.len()
            && forall|i: int|
            0 <= i < ones@.len() ==> (#[trigger] ones@[i]).name@ == others@[i].name@ && same_tree(
                ones@[i].node,
                others@[i].node,
            ),
        _ => false,
    }
}

/// A tree holds the same as itself.
pub proof fn same_tree_reflexive(tree: FileTree)
    ensures
        same_tree(tree, tree),
    decreases tree,
{
    match tree {
        FileTree::File(_) => {},
        FileTree::Directory(entries) => {
            assert forall|i: int| 0 <= i < entries@.len() implies same_tree(
                (#[trigger] entries@[i]).node,
                entries@[i].node,
            ) by {
                same_tree_reflexive(entries@[i].node);
            }
        },
    }
}

/// Entries with the same names, one by one, hold a name at the same position.
pub proof fn same_names_same_position(
    ones: Seq<DirEntry>,
    others: Seq<DirEntry>,
    name: Seq<char>,
    from: int,
)
    requires
        0 <= from <= ones.len() == others.len(),
        forall|i: int| 0 <= i < ones.len() ==> (#[trigger] ones[i]).name@ == others[i].name@,
    ensures
        position(ones, name, from) == position(others, name, from),
    decreases ones.len() - from,
{
    if from < ones.len() {
        assert(ones[from].name@ == others[from].name@);
        if ones[from].name@ != name {
            same_names_same_position(ones, others, name, from + 1);
        }
    }
}

/// Trees that hold the same hold a node at the same places, and the same
/// there.
pub proof fn same_trees_hold_the_same_places(left: FileTree, right: FileTree, place: Seq<Seq<char>>)
    requires
        same_tree(left, right),
    ensures
        left.lookup(place) is Some <==> right.lookup(place) is Some,
        left.lookup(place) is Some ==> same_tree(
            left.lookup(place).unwrap(),
            right.lookup(place).unwrap(),
        ),
    decreases place.len(),
{
    if place.len() > 0 {
        match (left, right) {
            (FileTree::Directory(ones), FileTree::Directory(others)) => {
                same_names_same_position(ones@, others@, place[0], 0);
                let at = position(ones@, place[0], 0);
                position_bounds(ones@, place[0], 0);
                if at < ones@.len() {
                    assert(same_tree(ones@[at].node, others@[at].node));
                    same_trees_hold_the_same_places(
                        ones@[at].node,
                        others@[at].node,
                        place.drop_first(),
                    );
                }
            },
            _ => {},
        }
    }
}

/// Tells whether no two entries have the same name.
pub fn has_unique_names(entries: &Vec<DirEntry>) -> (unique: bool)
    ensures
        unique == names_unique(entries@),
{
    let mut j: usize = 0;
    while j < entries.len()
        invariant
            0 <= j <= entries@.len(),
            forall|a: int, b: int|
                0 <= a < b < j ==> (#[trigger] entries@[a]).name@ != (#[trigger] entries@[b]).name@,
        decreases entries@.len() - j,
    {
        let mut i: usize = 0;
        while i < j
            invariant
                0 <= i <= j < entries@.len(),
                forall|a: int| 0 <= a < i ==> (#[trigger] entries@[a]).name@ != entries@[j as int].name@,
            decreases j - i,
        {
            if entries[i].name == entries[j].name {
                return false;
            }
            i = i + 1;
        }
        j = j + 1;
    }
    true
}

/// Tells whether the tree is well formed.
pub fn is_well_formed(tree: &FileTree) -> (formed: bool)
    ensures
        formed == tree.wf(),
    decreases tree,
{
    match tree {
        FileTree::File(_) => true,
        FileTree::Directory(entries) => {
            if !has_unique_names(entries) {
                return false;
            }
            let mut i: usize = 0;
            while i < entries.len()
                invariant
                    0 <= i <= entries@.len(),
                    *tree == FileTree::Directory(*entries),
                    forall|k: int| 0 <= k < i ==> (#[trigger] entries@[k]).node.wf(),
                decreases entries@.len() - i,
            {
                proof {
                    child_is_smaller(*tree, *entries, i as int);
                }
                if !is_well_formed(&entries[i].node) {
                    return false;
                }
                i = i + 1;
            }
            true
        },
    }
}

/// Takes the node at `segments` out of the tree.
pub fn take_path(tree: FileTree, segments: &Vec<String>) -> (found: Option<FileTree>)
    ensures
        found == tree.lookup(texts(segments@)),
{
    let ghost names = texts(segments@);
    let mut current = tree;
    let mut i: usize = 0;
    assert(names.subrange(0, names.len() as int) =~= names);
    while i < segments.len()
        invariant
            0 <= i <= segments@.len(),
            names == texts(segments@),
            tree.lookup(names) == current.lookup(names.subrange(i as int, names.len() as int)),
        decreases segments@.len() - i,
    {
        let ghost rest = names.subrange(i as int, names.len() as int);
        assert(rest[0] == segments@[i as int]@);
        assert(rest.drop_first() =~= names.subrange(i + 1, names.len() as int));
        match current {
            FileTree::File(_) => {
                return None;
            },
            FileTree::Directory(entries) => {
                let mut children = entries;
                match find_child(&children, segments[i].as_str()) {
                    None => {
                        return None;
                    },
                    Some(at) => {
                        let entry = children.remove(at);
                        current = entry.node;
                    },
                }
            },
        }
        i = i + 1;
    }
    assert(names.subrange(i as int, names.len() as int).len() == 0);
    Some(current)
}

/// A file stands at `segments`.
pub fn file_exists(tree: &FileTree, segments: &Vec<String>) -> (exists_there: bool)
    ensures
        exists_there == (tree.lookup(texts(segments@)) matches Some(FileTree::File(_))),
{
    match tree.path(segments) {
        Some(FileTree::File(_)) => true,
        _ => false,
    }
}

/// A directory stands at `segments`.
pub fn dir_exists(tree: &FileTree, segments: &Vec<String>) -> (exists_there: bool)
    ensures
        exists_there == (tree.lookup(texts(segments@)) matches Some(FileTree::Directory(_))),
{
    match tree.path(segments) {
        Some(FileTree::Directory(_)) => true,
        _ => false,
    }
}

/// Copies a path.
pub fn clone_path(segments: &Vec<String>) -> (copy: Vec<String>)
    ensures
        texts(copy@) == texts(segments@),
{
    let mut copy: Vec<String> = Vec::new();
    let mut i: usize = 0;
    while i < segments.len()
        invariant
            0 <= i <= segments@.len(),
            copy@.len() == i,
            forall|j: int| 0 <= j < i ==> (#[trigger] copy@[j])@ == segments@[j]@,
        decreases segments@.len() - i,
    {
        copy.push(segments[i].clone());
        i = i + 1;
    }
    assert(texts(copy@) =~= texts(segments@));
    copy
}

/// Extends a path by one segment.
pub fn child_path(path: &Vec<String>, name: &String) -> (longer: Vec<String>)
    ensures
        texts(longer@) == texts(path@).push(name@),
{
    let mut longer = clone_path(path);
    let ghost before = longer@;
    longer.push(name.clone());
    assert(texts(longer@) =~= texts(before).push(name@));
    longer
}

/// The content of the file at `segments`; a missing node and a directory are
/// refused with the path.
pub fn file_content(tree: &FileTree, segments: &Vec<String>) -> (content: Result<String, ScaffoldError>)
    ensures
        match content {
            Ok(text) => tree.lookup(texts(segments@)) matches Some(FileTree::File(held)) && held@
                == text@,
            Err(ScaffoldError::PathNotFound(path)) => !(tree.lookup(texts(segments@)) matches Some(
                FileTree::File(_),
            )) && texts(path@) == texts(segments@),
            Err(_) => false,
        },
{
    match tree.path(segments) {
        Some(FileTree::File(text)) => Ok(text.clone()),
        _ => Err(ScaffoldError::PathNotFound(clone_path(segments))),
    }
}

} // verus!
