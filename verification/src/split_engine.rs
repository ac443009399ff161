//! The pane layout of one workspace: a binary tree whose leaves are
//! terminal panes and whose inner nodes split their area in two.
//!
//! Split and close operations rebuild the tree around the active pane. The
//! widgets that show the tree live outside the library; each leaf carries the
//! plain values the layout logic reads: its pane id, its terminal surface
//! handle (0 while the surface does not exist yet), its UUID, and whether it
//! currently carries the active-pane marking.
use vstd::prelude::*;
use crate::ids::{is_v4_uuid, new_random_uuid};

verus! {

/// Direction for pane focus navigation.
#[derive(Debug, Clone, Copy, PartialEq, Eq, Structural)]
pub enum FocusDirection {
    Left,
    Right,
    Up,
    Down,
}

/// Orientation of a split: `Horizontal` places the two halves side by side,
/// `Vertical` one above the other.
#[derive(Debug, Clone, Copy, PartialEq, Eq, Structural)]
pub enum Orientation {
    Horizontal,
    Vertical,
}

/// Recursive pane layout tree. Each workspace has one root node.
#[derive(Debug)]
pub enum SplitNode {
    Leaf {
        pane_id: u64,
        /// Handle of the pane's terminal surface; 0 until the surface exists.
        surface: usize,
        /// Stable UUID for session persistence and socket protocol identity.
        uuid: u128,
        /// Whether the pane carries the active-pane marking.
        active_mark: bool,
    },
    Split {
        orientation: Orientation,
        start: Box<SplitNode>,
        end: Box<SplitNode>,
    },
}

/// Serializable mirror of a layout tree for session persistence: the data
/// needed to rebuild the tree, without any widget.
#[derive(Debug)]
pub enum SplitNodeData {
    Leaf {
        pane_id: u64,
        surface_uuid: u128,
        /// Shell executable path, e.g. "/bin/zsh" (empty when unknown).
        shell: String,
        /// Working directory (empty when unknown).
        cwd: String,
    },
    Split {
        /// "horizontal" or "vertical".
        orientation: String,
        start: Box<SplitNodeData>,
        end: Box<SplitNodeData>,
    },
}

/// The name an orientation is stored under in a layout snapshot.
pub open spec fn orientation_name(o: Orientation) -> Seq<char> {
    match o {
        Orientation::Horizontal => "horizontal"@,
        Orientation::Vertical => "vertical"@,
    }
}

impl SplitNode {
    /// Pane ids of the leaves, in order (start subtree before end subtree).
    pub open spec fn pane_ids(self) -> Seq<u64>
        decreases self,
    {
        match self {
            SplitNode::Leaf { pane_id, .. } => seq![pane_id],
            SplitNode::Split { start, end, .. } => start.pane_ids() + end.pane_ids(),
        }
    }

    /// Surface handles of the leaves, in the same order.
    pub open spec fn surfaces(self) -> Seq<usize>
        decreases self,
    {
        match self {
            SplitNode::Leaf { surface, .. } => seq![surface],
            SplitNode::Split { start, end, .. } => start.surfaces() + end.surfaces(),
        }
    }

    /// Whether `self` is a leaf with pane id `id`.
    pub open spec fn is_leaf_with(self, id: u64) -> bool {
        match self {
            SplitNode::Leaf { pane_id, .. } => pane_id == id,
            SplitNode::Split { .. } => false,
        }
    }

    /// The pane id of the first leaf (leftmost/topmost) of the subtree.
    pub open spec fn first_pane(self) -> u64
        decreases self,
    {
        match self {
            SplitNode::Leaf { pane_id, .. } => pane_id,
            SplitNode::Split { start, .. } => start.first_pane(),
        }
    }

    /// The pane id of the first leaf, in order, that carries the active mark.
    pub open spec fn marked_pane(self) -> Option<u64>
        decreases self,
    {
        match self {
            SplitNode::Leaf { pane_id, active_mark, .. } => if active_mark {
                Some(pane_id)
            } else {
                None
            },
            SplitNode::Split { start, end, .. } => match start.marked_pane() {
                Some(id) => Some(id),
                None => end.marked_pane(),
            },
        }
    }

    /// The surface of the first leaf, in order, with pane id `id`.
    pub open spec fn surface_of_pane(self, id: u64) -> Option<usize>
        decreases self,
    {
        match self {
            SplitNode::Leaf { pane_id, surface, .. } => if pane_id == id {
                Some(surface)
            } else {
                None
            },
            SplitNode::Split { start, end, .. } => match start.surface_of_pane(id) {
                Some(s) => Some(s),
                None => end.surface_of_pane(id),
            },
        }
    }

    /// The surface of the first leaf, in order, with pane id `id` whose
    /// surface exists (is not 0).
    pub open spec fn live_surface_of_pane(self, id: u64) -> Option<usize>
        decreases self,
    {
        match self {
            SplitNode::Leaf { pane_id, surface, .. } => if pane_id == id && surface != 0 {
                Some(surface)
            } else {
                None
            },
            SplitNode::Split { start, end, .. } => match start.live_surface_of_pane(id) {
                Some(s) => Some(s),
                None => end.live_surface_of_pane(id),
            },
        }
    }

    /// The tree with the active mark on exactly the leaves whose pane id is
    /// `active`.
    pub open spec fn with_marks(self, active: u64) -> SplitNode
        decreases self,
    {
        match self {
            SplitNode::Leaf { pane_id, surface, uuid, .. } => SplitNode::Leaf {
                pane_id,
                surface,
                uuid,
                active_mark: pane_id == active,
            },
            SplitNode::Split { orientation, start, end } => SplitNode::Split {
                orientation,
                start: Box::new(start.with_marks(active)),
                end: Box::new(end.with_marks(active)),
            },
        }
    }

    /// The tree with surface `s` on every leaf whose pane id is `id`.
    pub open spec fn with_surface(self, id: u64, s: usize) -> SplitNode
        decreases self,
    {
        match self {
            SplitNode::Leaf { pane_id, surface, uuid, active_mark } => SplitNode::Leaf {
                pane_id,
                surface: if pane_id == id {
                    s
                } else {
                    surface
                },
                uuid,
                active_mark,
            },
            SplitNode::Split { orientation, start, end } => SplitNode::Split {
                orientation,
                start: Box::new(start.with_surface(id, s)),
                end: Box::new(end.with_surface(id, s)),
            },
        }
    }

    /// The tree in which the first leaf with pane id `target` is replaced by
    /// a split of orientation `o` holding that leaf first and `new_leaf`
    /// second; `None` when no leaf has that pane id.
    pub open spec fn replace_leaf(self, target: u64, new_leaf: SplitNode, o: Orientation) -> Option<
        SplitNode,
    >
        decreases self,
    {
        match self {
            SplitNode::Leaf { pane_id, .. } => if pane_id == target {
                Some(SplitNode::Split { orientation: o, start: Box::new(self), end: Box::new(new_leaf) })
            } else {
                None
            },
            SplitNode::Split { orientation, start, end } => match start.replace_leaf(
                target,
                new_leaf,
                o,
            ) {
                Some(s) => Some(SplitNode::Split { orientation, start: Box::new(s), end }),
                None => match end.replace_leaf(target, new_leaf, o) {
                    Some(e) => Some(SplitNode::Split { orientation, start, end: Box::new(e) }),
                    None => None,
                },
            },
        }
    }

    /// Removal of the leaf with pane id `target`: at a split whose start or
    /// end child is that leaf, the split is replaced by the other child
    /// (the start child is looked at first), and the result carries the
    /// first pane id of that surviving child; otherwise the start subtree is
    /// searched, then the end subtree. `None` when no split has such a leaf
    /// child (in particular when `self` is a leaf).
    pub open spec fn remove_leaf(self, target: u64) -> Option<(SplitNode, u64)>
        decreases self,
    {
        match self {
            SplitNode::Leaf { .. } => None,
            SplitNode::Split { orientation, start, end } => if start.is_leaf_with(target) {
                Some((*end, end.first_pane()))
            } else if end.is_leaf_with(target) {
                Some((*start, start.first_pane()))
            } else {
                match start.remove_leaf(target) {
                    Some((s, id)) => Some((SplitNode::Split { orientation, start: Box::new(s), end }, id)),
                    None => match end.remove_leaf(target) {
                        Some((e, id)) => Some(
                            (SplitNode::Split { orientation, start, end: Box::new(e) }, id),
                        ),
                        None => None,
                    },
                }
            },
        }
    }

    /// Whether `data` is the snapshot of this tree: same shape, same pane
    /// ids, UUIDs as surface UUIDs, empty shell and working directory, and
    /// orientations stored by name.
    pub open spec fn snapshot_is(self, data: SplitNodeData) -> bool
        decreases self,
    {
        match self {
            SplitNode::Leaf { pane_id, uuid, .. } => match data {
                SplitNodeData::Leaf { pane_id: p, surface_uuid, shell, cwd } => p == pane_id
                    && surface_uuid == uuid && shell@.len() == 0 && cwd@.len() == 0,
                _ => false,
            },
            SplitNode::Split { orientation, start, end } => match data {
                SplitNodeData::Split { orientation: name, start: ds, end: de } => name@
                    == orientation_name(orientation) && start.snapshot_is(*ds) && end.snapshot_is(
                    *de,
                ),
                _ => false,
            },
        }
    }
}

} // verus!

verus! {

impl SplitNode {
    /// The pane id of the first leaf that carries the active mark.
    pub fn find_active_pane_id(&self) -> (r: Option<u64>)
        ensures
            r == self.marked_pane(),
        decreases self,
    {
        match self {
            SplitNode::Leaf { pane_id, active_mark, .. } => {
                if *active_mark {
                    Some(*pane_id)
                } else {
                    None
                }
            },
            SplitNode::Split { start, end, .. } => {
                match start.find_active_pane_id() {
                    Some(id) => Some(id),
                    None => end.find_active_pane_id(),
                }
            },
        }
    }

    /// Puts the active mark on the leaves with pane id `active_pane_id` and
    /// removes it from all others.
    pub fn update_focus_css(&mut self, active_pane_id: u64)
        ensures
            *final(self) == old(self).with_marks(active_pane_id),
        decreases *old(self),
    {
        match self {
            SplitNode::Leaf { pane_id, active_mark, .. } => {
                *active_mark = *pane_id == active_pane_id;
            },
            SplitNode::Split { start, end, .. } => {
                start.update_focus_css(active_pane_id);
                end.update_focus_css(active_pane_id);
            },
        }
    }

    /// Appends the pane ids of all leaves, in order, to `out`.
    pub fn collect_pane_ids(&self, out: &mut Vec<u64>)
        ensures
            final(out)@ == old(out)@ + self.pane_ids(),
        decreases self,
    {
        match self {
            SplitNode::Leaf { pane_id, .. } => {
                out.push(*pane_id);
            },
            SplitNode::Split { start, end, .. } => {
                start.collect_pane_ids(out);
                end.collect_pane_ids(out);
                assert(out@ =~= old(out)@ + self.pane_ids());
            },
        }
    }

    /// Appends the surface handles of all leaves, in order, to `out`.
    pub fn collect_surfaces(&self, out: &mut Vec<usize>)
        ensures
            final(out)@ == old(out)@ + self.surfaces(),
        decreases self,
    {
        match self {
            SplitNode::Leaf { surface, .. } => {
                out.push(*surface);
            },
            SplitNode::Split { start, end, .. } => {
                start.collect_surfaces(out);
                end.collect_surfaces(out);
                assert(out@ =~= old(out)@ + self.surfaces());
            },
        }
    }

    /// The surface of the first leaf with pane id `target_id`.
    pub fn find_surface_for_pane(&self, target_id: u64) -> (r: Option<usize>)
        ensures
            r == self.surface_of_pane(target_id),
        decreases self,
    {
        match self {
            SplitNode::Leaf { pane_id, surface, .. } => {
                if *pane_id == target_id {
                    Some(*surface)
                } else {
                    None
                }
            },
            SplitNode::Split { start, end, .. } => {
                match start.find_surface_for_pane(target_id) {
                    Some(s) => Some(s),
                    None => end.find_surface_for_pane(target_id),
                }
            },
        }
    }

    /// Whether this node is a leaf with pane id `id`.
    pub fn is_leaf_with_id(&self, id: u64) -> (r: bool)
        ensures
            r == self.is_leaf_with(id),
    {
        match self {
            SplitNode::Leaf { pane_id, .. } => *pane_id == id,
            SplitNode::Split { .. } => false,
        }
    }

    /// Produces the serializable snapshot of this tree. The shell and working
    /// directory of each pane are left empty.
    pub fn to_data(&self) -> (data: SplitNodeData)
        ensures
            self.snapshot_is(data),
        decreases self,
    {
        match self {
            SplitNode::Leaf { pane_id, uuid, .. } => SplitNodeData::Leaf {
                pane_id: *pane_id,
                surface_uuid: *uuid,
                shell: String::new(),
                cwd: String::new(),
            },
            SplitNode::Split { orientation, start, end } => {
                let name = match orientation {
                    Orientation::Horizontal => String::from_str("horizontal"),
                    Orientation::Vertical => String::from_str("vertical"),
                };
                let ds = start.to_data();
                let de = end.to_data();
                SplitNodeData::Split { orientation: name, start: Box::new(ds), end: Box::new(de) }
            },
        }
    }
}

/// The pane id of the first (leftmost/topmost) leaf of a subtree.
fn first_pane_id(node: &SplitNode) -> (id: u64)
    ensures
        id == node.first_pane(),
    decreases node,
{
    match node {
        SplitNode::Leaf { pane_id, .. } => *pane_id,
        SplitNode::Split { start, .. } => first_pane_id(start),
    }
}

/// The surface of the first leaf with pane id `pane_id` whose surface
/// exists.
fn find_surface_in_tree(node: &SplitNode, pane_id: u64) -> (r: Option<usize>)
    ensures
        r == node.live_surface_of_pane(pane_id),
    decreases node,
{
    match node {
        SplitNode::Leaf { pane_id: id, surface, .. } => {
            if *id == pane_id && *surface != 0 {
                Some(*surface)
            } else {
                None
            }
        },
        SplitNode::Split { start, end, .. } => {
            match find_surface_in_tree(start, pane_id) {
                Some(s) => Some(s),
                None => find_surface_in_tree(end, pane_id),
            }
        },
    }
}

/// Sets the surface of every leaf with pane id `pane_id`.
fn update_surface_in_tree(node: &mut SplitNode, pane_id: u64, surface: usize)
    ensures
        *final(node) == old(node).with_surface(pane_id, surface),
    decreases *old(node),
{
    match node {
        SplitNode::Leaf { pane_id: id, surface: s, .. } => {
            if *id == pane_id {
                *s = surface;
            }
        },
        SplitNode::Split { start, end, .. } => {
            update_surface_in_tree(start, pane_id, surface);
            update_surface_in_tree(end, pane_id, surface);
        },
    }
}

/// Appends the pane ids of the leaves, in order, to `out`.
fn collect_leaves_in_order(node: &SplitNode, out: &mut Vec<u64>)
    ensures
        final(out)@ == old(out)@ + node.pane_ids(),
    decreases node,
{
    match node {
        SplitNode::Leaf { pane_id, .. } => {
            out.push(*pane_id);
        },
        SplitNode::Split { start, end, .. } => {
            collect_leaves_in_order(start, out);
            collect_leaves_in_order(end, out);
            assert(out@ =~= old(out)@ + node.pane_ids());
        },
    }
}

} // verus!

verus! {

/// The leaf that temporarily stands in a slot whose node is being moved.
pub open spec fn placeholder_node() -> SplitNode {
    SplitNode::Leaf { pane_id: 0, surface: 0, uuid: 0, active_mark: false }
}

/// Moves the node out of `node`, leaving the placeholder leaf behind.
fn take_node(node: &mut SplitNode) -> (taken: SplitNode)
    ensures
        taken == *old(node),
        *final(node) == placeholder_node(),
{
    let mut tmp = SplitNode::Leaf { pane_id: 0, surface: 0, uuid: 0, active_mark: false };
    std::mem::swap(node, &mut tmp);
    tmp
}

/// Replaces the first leaf with pane id `target_id` by a split of
/// orientation `orientation` holding that leaf first and the leaf taken from
/// `replacer` second. Returns `Some(())` when the leaf was found; otherwise
/// nothing changes.
fn replace_in_tree(
    node: &mut SplitNode,
    target_id: u64,
    replacer: &mut Option<SplitNode>,
    orientation: Orientation,
) -> (r: Option<()>)
    requires
        old(replacer).is_some(),
    ensures
        match old(node).replace_leaf(target_id, old(replacer).unwrap(), orientation) {
            Some(n) => r is Some && *final(node) == n && final(replacer).is_none(),
            None => r is None && *final(node) == *old(node) && *final(replacer) == *old(replacer),
        },
    decreases *old(node),
{
    if node.is_leaf_with_id(target_id) {
        let new_leaf = replacer.take().unwrap();
        let old_leaf = take_node(node);
        *node = SplitNode::Split {
            orientation,
            start: Box::new(old_leaf),
            end: Box::new(new_leaf),
        };
        Some(())
    } else {
        match node {
            SplitNode::Leaf { .. } => None,
            SplitNode::Split { start, end, .. } => {
                match replace_in_tree(start, target_id, replacer, orientation) {
                    Some(()) => Some(()),
                    None => replace_in_tree(end, target_id, replacer, orientation),
                }
            },
        }
    }
}

/// Removes the leaf with pane id `target_id` and returns the first pane id of
/// its surviving sibling (see `SplitNode::remove_leaf`). Returns `None`, and
/// leaves the tree unchanged, when no split has such a leaf child.
fn remove_leaf_from_tree(node: &mut SplitNode, target_id: u64) -> (r: Option<u64>)
    ensures
        match old(node).remove_leaf(target_id) {
            Some((n, id)) => r == Some(id) && *final(node) == n,
            None => r is None && *final(node) == *old(node),
        },
    decreases *old(node),
{
    let start_is_target = match node {
        SplitNode::Leaf { .. } => {
            return None;
        },
        SplitNode::Split { start, .. } => start.is_leaf_with_id(target_id),
    };
    let end_is_target = match node {
        SplitNode::Leaf { .. } => false,
        SplitNode::Split { end, .. } => end.is_leaf_with_id(target_id),
    };
    if start_is_target || end_is_target {
        let whole = take_node(node);
        match whole {
            SplitNode::Split { start, end, .. } => {
                let surviving = if start_is_target {
                    *end
                } else {
                    *start
                };
                let surviving_id = first_pane_id(&surviving);
                *node = surviving;
                Some(surviving_id)
            },
            SplitNode::Leaf { .. } => None,
        }
    } else {
        match node {
            SplitNode::Leaf { .. } => None,
            SplitNode::Split { start, end, .. } => {
                match remove_leaf_from_tree(start, target_id) {
                    Some(id) => Some(id),
                    None => remove_leaf_from_tree(end, target_id),
                }
            },
        }
    }
}

} // verus!

verus! {

/// The position of the first occurrence of `x` in `s`, or -1 when `x` does
/// not occur.
pub open spec fn first_position(s: Seq<u64>, x: u64) -> int
    decreases s.len(),
{
    if s.len() == 0 {
        -1
    } else if s[0] == x {
        0
    } else {
        let p = first_position(s.drop_first(), x);
        if p < 0 {
            -1
        } else {
            p + 1
        }
    }
}

/// The pane next to `active` in the leaf order `ids`: the previous one for
/// `Left`/`Up`, the following one for `Right`/`Down`; `None` at either end
/// of the order or when `active` is not in it.
pub open spec fn adjacent_pane(ids: Seq<u64>, active: u64, direction: FocusDirection) -> Option<u64> {
    let p = first_position(ids, active);
    if p < 0 {
        None
    } else {
        match direction {
            FocusDirection::Left | FocusDirection::Up => if p > 0 {
                Some(ids[p - 1])
            } else {
                None
            },
            FocusDirection::Right | FocusDirection::Down => if p + 1 < ids.len() {
                Some(ids[p + 1])
            } else {
                None
            },
        }
    }
}

/// The surface of the first entry of `registry` (pairs of surface handle and
/// pane id) whose pane id is `pane_id`.
pub open spec fn registry_surface(registry: Seq<(usize, u64)>, pane_id: u64) -> Option<usize>
    decreases registry.len(),
{
    if registry.len() == 0 {
        None
    } else if registry[0].1 == pane_id {
        Some(registry[0].0)
    } else {
        registry_surface(registry.drop_first(), pane_id)
    }
}

proof fn lemma_first_position_scan(s: Seq<u64>, x: u64, p: int)
    requires
        0 <= p <= s.len(),
        forall|j: int| 0 <= j < p ==> s[j] != x,
        p < s.len() ==> s[p] == x,
    ensures
        first_position(s, x) == if p < s.len() {
            p
        } else {
            -1
        },
    decreases s.len(),
{
    if s.len() > 0 && p > 0 {
        assert forall|j: int| 0 <= j < p - 1 implies s.drop_first()[j] != x by {
            assert(s.drop_first()[j] == s[j + 1]);
        }
        lemma_first_position_scan(s.drop_first(), x, p - 1);
    }
}

/// Finds the pane adjacent to `active_id` in `direction`, by leaf order:
/// Left/Up gives the previous leaf, Right/Down the next one.
fn find_adjacent(root: &SplitNode, active_id: u64, direction: FocusDirection) -> (r: Option<u64>)
    ensures
        r == adjacent_pane(root.pane_ids(), active_id, direction),
{
    let mut leaves: Vec<u64> = Vec::new();
    collect_leaves_in_order(root, &mut leaves);
    assert(leaves@ =~= root.pane_ids());
    let mut pos: usize = 0;
    while pos < leaves.len() && leaves[pos] != active_id
        invariant
            pos <= leaves@.len(),
            forall|j: int| 0 <= j < pos ==> leaves@[j] != active_id,
        decreases leaves@.len() - pos,
    {
        pos = pos + 1;
    }
    proof {
        lemma_first_position_scan(leaves@, active_id, pos as int);
    }
    if pos == leaves.len() {
        return None;
    }
    match direction {
        FocusDirection::Left | FocusDirection::Up => {
            if pos > 0 {
                Some(leaves[pos - 1])
            } else {
                None
            }
        },
        FocusDirection::Right | FocusDirection::Down => {
            if pos + 1 < leaves.len() {
                Some(leaves[pos + 1])
            } else {
                None
            }
        },
    }
}

/// Looks `pane_id` up in a registry of (surface handle, pane id) pairs and
/// returns the surface of the first matching entry.
fn find_in_registry(registry: &Vec<(usize, u64)>, pane_id: u64) -> (r: Option<usize>)
    ensures
        r == registry_surface(registry@, pane_id),
{
    let mut i: usize = 0;
    assert(registry@.subrange(0, registry@.len() as int) =~= registry@);
    while i < registry.len()
        invariant
            i <= registry@.len(),
            registry_surface(registry@, pane_id) == registry_surface(
                registry@.subrange(i as int, registry@.len() as int),
                pane_id,
            ),
        decreases registry@.len() - i,
    {
        let ghost rest = registry@.subrange(i as int, registry@.len() as int);
        assert(rest[0] == registry@[i as int]);
        if registry[i].1 == pane_id {
            return Some(registry[i].0);
        }
        assert(rest.drop_first() =~= registry@.subrange(i + 1, registry@.len() as int));
        i = i + 1;
    }
    None
}

} // verus!

verus! {

/// The leaf created for a new pane: no surface yet, no active mark.
pub open spec fn fresh_leaf(pane_id: u64, uuid: u128) -> SplitNode {
    SplitNode::Leaf { pane_id, surface: 0, uuid, active_mark: false }
}

/// Manages one workspace's pane layout tree.
pub struct SplitEngine {
    pub root: SplitNode,
    pub active_pane_id: u64,
    /// Monotonically increasing pane id counter: the id the next new pane
    /// gets.
    pub next_pane_id: u64,
}

impl SplitEngine {
    /// Pane ids are unique, all below the next id to hand out, and the active
    /// pane is one of them.
    pub open spec fn wf(&self) -> bool {
        &&& self.root.pane_ids().no_duplicates()
        &&& forall|i: int|
            0 <= i < self.root.pane_ids().len() ==> #[trigger] self.root.pane_ids()[i]
                < self.next_pane_id
        &&& self.root.pane_ids().contains(self.active_pane_id)
    }

    /// The surface found for `pane_id`: the first leaf with that id whose
    /// surface exists, else the first registry entry for that id.
    pub open spec fn surface_lookup(&self, pane_id: u64, registry: Seq<(usize, u64)>) -> Option<
        usize,
    > {
        match self.root.live_surface_of_pane(pane_id) {
            Some(s) => Some(s),
            None => registry_surface(registry, pane_id),
        }
    }

    /// The tree after splitting the active pane with orientation `o`: the
    /// active leaf becomes a split holding it first and a fresh leaf (pane id
    /// `next_pane_id`, UUID `uuid`) second, and the active mark moves to the new
    /// leaf.
    pub open spec fn split_layout(&self, o: Orientation, uuid: u128) -> SplitNode {
        match self.root.replace_leaf(self.active_pane_id, fresh_leaf(self.next_pane_id, uuid), o) {
            Some(t) => t.with_marks(self.next_pane_id),
            None => self.root,
        }
    }

    /// The tree and the new active pane after closing the active pane: its
    /// leaf is removed (see `SplitNode::remove_leaf`) and the active mark
    /// moves to the surviving pane.
    pub open spec fn close_layout(&self) -> Option<(SplitNode, u64)> {
        match self.root.remove_leaf(self.active_pane_id) {
            Some((t, id)) => Some((t.with_marks(id), id)),
            None => None,
        }
    }

    /// How a split with orientation `o` and new-pane UUID `uuid` takes engine
    /// `self` to `after`, returning `r`: the pane id counter advances; when
    /// no surface is found for the active pane nothing else changes and `r`
    /// is `None`; otherwise the layout becomes `split_layout(o, uuid)`, the
    /// new pane is active and `r` is its id.
    pub open spec fn split_outcome(
        &self,
        after: SplitEngine,
        o: Orientation,
        uuid: u128,
        registry: Seq<(usize, u64)>,
        r: Option<u64>,
    ) -> bool {
        &&& after.wf()
        &&& after.next_pane_id == self.next_pane_id + 1
        &&& match self.surface_lookup(self.active_pane_id, registry) {
            None => r is None && after.root == self.root && after.active_pane_id
                == self.active_pane_id,
            Some(_) => r == Some(self.next_pane_id) && after.root == self.split_layout(o, uuid)
                && after.active_pane_id == self.next_pane_id,
        }
    }

    /// How closing the active pane takes engine `self` to `after`, returning
    /// `r`: nothing changes and `r` is `None` when the active pane is the
    /// only one; otherwise the layout and active pane become those of
    /// `close_layout()` and `r` is the new active pane.
    pub open spec fn close_outcome(&self, after: SplitEngine, r: Option<u64>) -> bool {
        &&& after.wf()
        &&& after.next_pane_id == self.next_pane_id
        &&& if self.root.is_leaf_with(self.active_pane_id) {
            r is None && after == *self
        } else {
            self.close_layout() matches Some((t, id)) && r == Some(id) && after.root == t
                && after.active_pane_id == id
        }
    }

    /// How moving the focus in `direction` takes engine `self` to `after`:
    /// when there is an adjacent pane it becomes active and alone carries
    /// the active mark, and `moved` is true; otherwise nothing changes.
    pub open spec fn focus_outcome(&self, after: SplitEngine, direction: FocusDirection, moved: bool) -> bool {
        &&& after.wf()
        &&& after.next_pane_id == self.next_pane_id
        &&& match adjacent_pane(self.root.pane_ids(), self.active_pane_id, direction) {
            Some(n) => moved && after.active_pane_id == n && after.root == self.root.with_marks(n),
            None => !moved && after == *self,
        }
    }

    /// Creates an engine with a single leaf pane `pane_id` that has no
    /// surface yet and a fresh random UUID.
    pub fn new(pane_id: u64) -> (e: Self)
        requires
            pane_id < u64::MAX,
        ensures
            e.wf(),
            e.active_pane_id == pane_id,
            e.next_pane_id == pane_id + 1,
            exists|u: u128| is_v4_uuid(u) && e.root == fresh_leaf(pane_id, u),
    {
        let uuid = new_random_uuid();
        let root = SplitNode::Leaf { pane_id, surface: 0, uuid, active_mark: false };
        let e = SplitEngine { root, active_pane_id: pane_id, next_pane_id: pane_id + 1 };
        assert(e.root == fresh_leaf(pane_id, uuid));
        assert(e.root.pane_ids()[0] == pane_id);
        e
    }

    /// Records the surface of the initial pane: only when the root is the
    /// leaf `pane_id`.
    pub fn set_initial_surface(&mut self, pane_id: u64, surface: usize)
        ensures
            old(self).wf() ==> final(self).wf(),
            final(self).active_pane_id == old(self).active_pane_id,
            final(self).next_pane_id == old(self).next_pane_id,
            final(self).root == if old(self).root.is_leaf_with(pane_id) {
                old(self).root.with_surface(pane_id, surface)
            } else {
                old(self).root
            },
    {
        if let SplitNode::Leaf { pane_id: id, surface: s, .. } = &mut self.root {
            if *id == pane_id {
                *s = surface;
            }
        }
        proof {
            lemma_surface_keep(old(self).root, pane_id, surface);
        }
    }

    /// Records the surface of pane `pane_id` (on every leaf with that id).
    pub fn update_surface(&mut self, pane_id: u64, surface: usize)
        ensures
            old(self).wf() ==> final(self).wf(),
            final(self).active_pane_id == old(self).active_pane_id,
            final(self).next_pane_id == old(self).next_pane_id,
            final(self).root == old(self).root.with_surface(pane_id, surface),
    {
        update_surface_in_tree(&mut self.root, pane_id, surface);
        proof {
            lemma_surface_keep(old(self).root, pane_id, surface);
        }
    }

    /// The surface of pane `pane_id`: from the tree when the pane's surface
    /// exists there, else from `registry` (pairs of surface handle and pane
    /// id, as the surface registry holds them).
    pub fn find_surface(&self, pane_id: u64, registry: &Vec<(usize, u64)>) -> (r: Option<usize>)
        ensures
            r == self.surface_lookup(pane_id, registry@),
    {
        match find_surface_in_tree(&self.root, pane_id) {
            Some(s) => Some(s),
            None => find_in_registry(registry, pane_id),
        }
    }
}

} // verus!

verus! {

proof fn lemma_ids_nonempty(n: SplitNode)
    ensures
        n.pane_ids().len() >= 1,
        n.first_pane() == n.pane_ids()[0],
        n.surfaces().len() == n.pane_ids().len(),
    decreases n,
{
    match n {
        SplitNode::Leaf { .. } => {},
        SplitNode::Split { start, end, .. } => {
            lemma_ids_nonempty(*start);
            lemma_ids_nonempty(*end);
        },
    }
}

proof fn lemma_first_position_bounds(s: Seq<u64>, x: u64)
    ensures
        -1 <= first_position(s, x) < s.len(),
        first_position(s, x) >= 0 <==> s.contains(x),
        first_position(s, x) >= 0 ==> s[first_position(s, x)] == x,
        forall|j: int| 0 <= j < first_position(s, x) ==> s[j] != x,
    decreases s.len(),
{
    if s.len() > 0 && s[0] != x {
        lemma_first_position_bounds(s.drop_first(), x);
        let p = first_position(s.drop_first(), x);
        if s.contains(x) {
            let k = choose|k: int| 0 <= k < s.len() && s[k] == x;
            assert(s.drop_first()[k - 1] == x);
        }
        if p >= 0 {
            assert(s[p + 1] == x);
            assert forall|j: int| 0 <= j < p + 1 implies s[j] != x by {
                if j > 0 {
                    assert(s[j] == s.drop_first()[j - 1]);
                }
            }
        }
    }
    if s.len() > 0 && s[0] == x {
        assert(s.contains(x));
    }
}

proof fn lemma_first_position_concat(a: Seq<u64>, b: Seq<u64>, x: u64)
    ensures
        first_position(a + b, x) == if a.contains(x) {
            first_position(a, x)
        } else if b.contains(x) {
            a.len() + first_position(b, x)
        } else {
            -1
        },
{
    lemma_first_position_bounds(a, x);
    lemma_first_position_bounds(b, x);
    lemma_first_position_bounds(a + b, x);
    let pa = first_position(a, x);
    let pb = first_position(b, x);
    if a.contains(x) {
        lemma_first_position_scan(a + b, x, pa);
    } else if b.contains(x) {
        assert forall|j: int| 0 <= j < a.len() + pb implies (a + b)[j] != x by {
            if j < a.len() {
                assert(!a.contains(x));
                if a[j] == x {
                    assert(a.contains(x));
                }
            } else {
                assert((a + b)[j] == b[j - a.len()]);
            }
        }
        lemma_first_position_scan(a + b, x, a.len() + pb);
    } else {
        assert forall|j: int| 0 <= j < (a + b).len() implies (a + b)[j] != x by {
            if j < a.len() {
                if a[j] == x {
                    assert(a.contains(x));
                }
            } else {
                if b[j - a.len()] == x {
                    assert(b.contains(x));
                }
            }
        }
        lemma_first_position_scan(a + b, x, (a + b).len() as int);
    }
}

proof fn lemma_marks_keep(n: SplitNode, m: u64)
    ensures
        n.with_marks(m).pane_ids() == n.pane_ids(),
        n.with_marks(m).surfaces() == n.surfaces(),
        n.with_marks(m).first_pane() == n.first_pane(),
        forall|t: u64| n.with_marks(m).is_leaf_with(t) == n.is_leaf_with(t),
    decreases n,
{
    match n {
        SplitNode::Leaf { .. } => {},
        SplitNode::Split { start, end, .. } => {
            lemma_marks_keep(*start, m);
            lemma_marks_keep(*end, m);
        },
    }
}

proof fn lemma_marks_twice(n: SplitNode, m: u64, k: u64)
    ensures
        n.with_marks(m).with_marks(k) == n.with_marks(k),
    decreases n,
{
    match n {
        SplitNode::Leaf { .. } => {},
        SplitNode::Split { start, end, .. } => {
            lemma_marks_twice(*start, m, k);
            lemma_marks_twice(*end, m, k);
        },
    }
}

proof fn lemma_surface_keep(n: SplitNode, p: u64, s: usize)
    ensures
        n.with_surface(p, s).pane_ids() == n.pane_ids(),
    decreases n,
{
    match n {
        SplitNode::Leaf { .. } => {},
        SplitNode::Split { start, end, .. } => {
            lemma_surface_keep(*start, p, s);
            lemma_surface_keep(*end, p, s);
        },
    }
}

/// The marked pane after marking `m` is `m` when some leaf has that id, and
/// none otherwise.
proof fn lemma_marks_find(n: SplitNode, m: u64)
    ensures
        n.with_marks(m).marked_pane() == if n.pane_ids().contains(m) {
            Some(m)
        } else {
            None::<u64>
        },
    decreases n,
{
    match n {
        SplitNode::Leaf { pane_id, .. } => {
            if pane_id == m {
                assert(n.pane_ids()[0] == m);
            } else {
                assert(!n.pane_ids().contains(m)) by {
                    if n.pane_ids().contains(m) {
                        assert(n.pane_ids()[0] == pane_id);
                    }
                }
            }
        },
        SplitNode::Split { start, end, .. } => {
            lemma_marks_find(*start, m);
            lemma_marks_find(*end, m);
            let a = start.pane_ids();
            let b = end.pane_ids();
            assert(n.pane_ids() == a + b);
            if a.contains(m) {
                let k = choose|k: int| 0 <= k < a.len() && a[k] == m;
                assert((a + b)[k] == m);
            } else if b.contains(m) {
                let k = choose|k: int| 0 <= k < b.len() && b[k] == m;
                assert((a + b)[a.len() + k] == m);
            } else {
                if (a + b).contains(m) {
                    let k = choose|k: int| 0 <= k < (a + b).len() && (a + b)[k] == m;
                    if k < a.len() {
                        assert(a[k] == m);
                    } else {
                        assert(b[k - a.len()] == m);
                    }
                }
            }
        },
    }
}

} // verus!

verus! {

proof fn lemma_no_dup_parts(a: Seq<u64>, b: Seq<u64>)
    requires
        (a + b).no_duplicates(),
    ensures
        a.no_duplicates(),
        b.no_duplicates(),
        forall|i: int, j: int| 0 <= i < a.len() && 0 <= j < b.len() ==> a[i] != b[j],
{
    assert forall|i: int, j: int| 0 <= i < a.len() && 0 <= j < a.len() && i != j implies a[i]
        != a[j] by {
        assert((a + b)[i] == a[i] && (a + b)[j] == a[j]);
    }
    assert forall|i: int, j: int| 0 <= i < b.len() && 0 <= j < b.len() && i != j implies b[i]
        != b[j] by {
        assert((a + b)[a.len() + i] == b[i] && (a + b)[a.len() + j] == b[j]);
    }
    assert forall|i: int, j: int| 0 <= i < a.len() && 0 <= j < b.len() implies a[i] != b[j] by {
        assert((a + b)[i] == a[i] && (a + b)[a.len() + j] == b[j]);
    }
}

proof fn lemma_replace(n: SplitNode, t: u64, leaf: SplitNode, o: Orientation)
    ensures
        n.replace_leaf(t, leaf, o).is_some() == n.pane_ids().contains(t),
        n.replace_leaf(t, leaf, o) matches Some(r) ==> r.pane_ids() =~= n.pane_ids().take(
            first_position(n.pane_ids(), t) + 1,
        ) + leaf.pane_ids() + n.pane_ids().skip(first_position(n.pane_ids(), t) + 1),
    decreases n,
{
    lemma_first_position_bounds(n.pane_ids(), t);
    match n {
        SplitNode::Leaf { pane_id, .. } => {
            if pane_id != t {
                assert(!n.pane_ids().contains(t)) by {
                    if n.pane_ids().contains(t) {
                        assert(n.pane_ids()[0] == pane_id);
                    }
                }
            } else {
                assert(n.pane_ids()[0] == t);
            }
        },
        SplitNode::Split { start, end, .. } => {
            lemma_replace(*start, t, leaf, o);
            lemma_replace(*end, t, leaf, o);
            let a = start.pane_ids();
            let b = end.pane_ids();
            lemma_first_position_concat(a, b, t);
            lemma_first_position_bounds(a, t);
            lemma_first_position_bounds(b, t);
            assert(n.pane_ids() == a + b);
            if a.contains(t) {
                assert((a + b).contains(t)) by {
                    let k = first_position(a, t);
                    assert((a + b)[k] == t);
                }
                let p = first_position(a, t);
                assert((a + b).take(p + 1) =~= a.take(p + 1));
                assert((a + b).skip(p + 1) =~= a.skip(p + 1) + b);
            } else if b.contains(t) {
                let pb = first_position(b, t);
                assert((a + b)[a.len() + pb] == t);
                assert((a + b).take(a.len() + pb + 1) =~= a + b.take(pb + 1));
                assert((a + b).skip(a.len() + pb + 1) =~= b.skip(pb + 1));
            } else {
                if (a + b).contains(t) {
                    let k = choose|k: int| 0 <= k < (a + b).len() && (a + b)[k] == t;
                    if k < a.len() {
                        assert(a[k] == t);
                    } else {
                        assert(b[k - a.len()] == t);
                    }
                }
            }
        },
    }
}

proof fn lemma_remove_absent(n: SplitNode, t: u64)
    requires
        !n.pane_ids().contains(t),
    ensures
        n.remove_leaf(t).is_none(),
    decreases n,
{
    match n {
        SplitNode::Leaf { .. } => {},
        SplitNode::Split { start, end, .. } => {
            let a = start.pane_ids();
            let b = end.pane_ids();
            assert(!a.contains(t)) by {
                if a.contains(t) {
                    let k = choose|k: int| 0 <= k < a.len() && a[k] == t;
                    assert((a + b)[k] == t);
                }
            }
            assert(!b.contains(t)) by {
                if b.contains(t) {
                    let k = choose|k: int| 0 <= k < b.len() && b[k] == t;
                    assert((a + b)[a.len() + k] == t);
                }
            }
            if start.is_leaf_with(t) {
                assert(a[0] == t);
            }
            if end.is_leaf_with(t) {
                assert(b[0] == t);
            }
            lemma_remove_absent(*start, t);
            lemma_remove_absent(*end, t);
        },
    }
}

proof fn lemma_leaf_contains(n: SplitNode, t: u64)
    requires
        n is Leaf,
        n.pane_ids().contains(t),
    ensures
        n.is_leaf_with(t),
{
    let k = choose|k: int| 0 <= k < n.pane_ids().len() && n.pane_ids()[k] == t;
    assert(k == 0);
}

#[verifier::spinoff_prover]
#[verifier::rlimit(60)]
proof fn lemma_remove(n: SplitNode, t: u64)
    requires
        n.pane_ids().no_duplicates(),
        n.pane_ids().contains(t),
        n is Split,
    ensures
        n.remove_leaf(t) matches Some((r, id)) && r.pane_ids() =~= n.pane_ids().remove(
            first_position(n.pane_ids(), t),
        ) && r.pane_ids().contains(id),
    decreases n,
{
    match n {
        SplitNode::Leaf { .. } => {},
        SplitNode::Split { start, end, .. } => {
            let a = start.pane_ids();
            let b = end.pane_ids();
            assert(n.pane_ids() == a + b);
            lemma_no_dup_parts(a, b);
            lemma_first_position_concat(a, b, t);
            lemma_first_position_bounds(a, t);
            lemma_first_position_bounds(b, t);
            lemma_ids_nonempty(*start);
            lemma_ids_nonempty(*end);
            if start.is_leaf_with(t) {
                assert(a[0] == t);
                assert(a.contains(t));
                assert(first_position(a, t) == 0);
                assert((a + b).remove(0) =~= b);
                assert(b.contains(b[0]));
            } else if end.is_leaf_with(t) {
                assert(b[0] == t);
                assert(!a.contains(t)) by {
                    if a.contains(t) {
                        let k = choose|k: int| 0 <= k < a.len() && a[k] == t;
                        assert(a[k] != b[0]);
                    }
                }
                assert(b.contains(t));
                assert(first_position(b, t) == 0);
                assert((a + b).remove(a.len() as int) =~= a);
                assert(a.contains(a[0]));
            } else if a.contains(t) {
                if *start is Leaf {
                    lemma_leaf_contains(*start, t);
                }
                lemma_remove(*start, t);
                let pa = first_position(a, t);
                assert((a + b).remove(pa) =~= a.remove(pa) + b);
                let (s2, id) = start.remove_leaf(t).unwrap();
                let k = choose|k: int| 0 <= k < s2.pane_ids().len() && s2.pane_ids()[k] == id;
                assert((s2.pane_ids() + b)[k] == id);
            } else {
                assert(b.contains(t)) by {
                    let k = choose|k: int| 0 <= k < (a + b).len() && (a + b)[k] == t;
                    if k < a.len() {
                        assert(a[k] == t);
                    } else {
                        assert(b[k - a.len()] == t);
                    }
                }
                lemma_remove_absent(*start, t);
                if *end is Leaf {
                    lemma_leaf_contains(*end, t);
                }
                lemma_remove(*end, t);
                let pb = first_position(b, t);
                assert((a + b).remove(a.len() + pb) =~= a + b.remove(pb));
                let (e2, id) = end.remove_leaf(t).unwrap();
                let k = choose|k: int| 0 <= k < e2.pane_ids().len() && e2.pane_ids()[k] == id;
                assert((a + e2.pane_ids())[a.len() + k] == id);
            }
        },
    }
}

} // verus!

verus! {

proof fn lemma_insert_fresh(s: Seq<u64>, p: int, x: u64, bound: u64)
    requires
        s.no_duplicates(),
        0 <= p <= s.len(),
        forall|i: int| 0 <= i < s.len() ==> #[trigger] s[i] < x,
        x < bound,
    ensures
        (s.take(p) + seq![x] + s.skip(p)).no_duplicates(),
        forall|i: int|
            0 <= i < (s.take(p) + seq![x] + s.skip(p)).len() ==> #[trigger] (s.take(p) + seq![x]
                + s.skip(p))[i] < bound,
        (s.take(p) + seq![x] + s.skip(p)).contains(x),
{
    let r = s.take(p) + seq![x] + s.skip(p);
    assert(r.len() == s.len() + 1);
    assert forall|i: int| 0 <= i < r.len() implies (i < p ==> r[i] == s[i]) && (i == p ==> r[i]
        == x) && (i > p ==> r[i] == s[i - 1]) by {}
    assert(r[p] == x);
}

proof fn lemma_remove_keeps(s: Seq<u64>, p: int, bound: u64)
    requires
        s.no_duplicates(),
        0 <= p < s.len(),
        forall|i: int| 0 <= i < s.len() ==> #[trigger] s[i] < bound,
    ensures
        s.remove(p).no_duplicates(),
        forall|i: int| 0 <= i < s.remove(p).len() ==> #[trigger] s.remove(p)[i] < bound,
{
    s.remove_ensures(p);
    let r = s.remove(p);
    assert forall|i: int| 0 <= i < r.len() implies r[i] == if i < p {
        s[i]
    } else {
        s[i + 1]
    } by {}
    assert forall|i: int, j: int| 0 <= i < r.len() && 0 <= j < r.len() && i != j implies r[i]
        != r[j] by {
        let si = if i < p {
            i
        } else {
            i + 1
        };
        let sj = if j < p {
            j
        } else {
            j + 1
        };
        assert(r[i] == s[si] && r[j] == s[sj]);
    }
    assert forall|i: int| 0 <= i < r.len() implies r[i] < bound by {
        if i < p {
            assert(r[i] == s[i]);
        } else {
            assert(r[i] == s[i + 1]);
        }
    }
}

impl SplitEngine {
    /// Splits the active pane with `orientation`: the active leaf becomes a
    /// split holding it first and a new leaf (pane id `next_pane_id`, UUID
    /// `uuid`) second, and the new pane becomes active. The pane id counter
    /// advances in any case. Nothing else changes, and `None` is returned,
    /// when no surface is found for the active pane (in the tree or in
    /// `registry`); otherwise the new pane id is returned.
    pub fn split_active(
        &mut self,
        orientation: Orientation,
        uuid: u128,
        registry: &Vec<(usize, u64)>,
    ) -> (r: Option<u64>)
        requires
            old(self).wf(),
            old(self).next_pane_id < u64::MAX,
        ensures
            old(self).split_outcome(*final(self), orientation, uuid, registry@, r),
    {
        let ghost pre = *self;
        let active_id = self.active_pane_id;
        let new_pane_id = self.next_pane_id;
        self.next_pane_id = self.next_pane_id + 1;
        let inherited_surface = self.find_surface(active_id, registry);
        if inherited_surface.is_none() {
            assert forall|i: int| 0 <= i < self.root.pane_ids().len() implies #[trigger] self.root.pane_ids()[i]
                < self.next_pane_id by {
                assert(pre.root.pane_ids()[i] < pre.next_pane_id);
            }
            return None;
        }
        let new_leaf = SplitNode::Leaf { pane_id: new_pane_id, surface: 0, uuid, active_mark: false };
        proof {
            lemma_replace(pre.root, active_id, new_leaf, orientation);
        }
        let mut replacer = Some(new_leaf);
        let replaced = replace_in_tree(&mut self.root, active_id, &mut replacer, orientation);
        if replaced.is_none() {
            return None;
        }
        self.active_pane_id = new_pane_id;
        self.root.update_focus_css(new_pane_id);
        proof {
            let ids = pre.root.pane_ids();
            let p = first_position(ids, active_id);
            lemma_first_position_bounds(ids, active_id);
            let t = pre.root.replace_leaf(active_id, new_leaf, orientation).unwrap();
            lemma_marks_keep(t, new_pane_id);
            assert(new_leaf.pane_ids() =~= seq![new_pane_id]);
            assert(ids.take(p + 1) + seq![new_pane_id] + ids.skip(p + 1) == t.pane_ids());
            lemma_insert_fresh(ids, p + 1, new_pane_id, self.next_pane_id);
        }
        Some(new_pane_id)
    }

    /// Splits the active pane to the right (new pane beside it) with a fresh
    /// random UUID for the new pane; see `split_active`.
    pub fn split_right(&mut self, registry: &Vec<(usize, u64)>) -> (r: Option<u64>)
        requires
            old(self).wf(),
            old(self).next_pane_id < u64::MAX,
        ensures
            exists|u: u128| is_v4_uuid(u) && old(self).split_outcome(*final(self), Orientation::Horizontal, u, registry@, r),
    {
        let uuid = new_random_uuid();
        self.split_active(Orientation::Horizontal, uuid, registry)
    }

    /// Splits the active pane downward (new pane below it) with a fresh
    /// random UUID for the new pane; see `split_active`.
    pub fn split_down(&mut self, registry: &Vec<(usize, u64)>) -> (r: Option<u64>)
        requires
            old(self).wf(),
            old(self).next_pane_id < u64::MAX,
        ensures
            exists|u: u128| is_v4_uuid(u) && old(self).split_outcome(*final(self), Orientation::Vertical, u, registry@, r),
    {
        let uuid = new_random_uuid();
        self.split_active(Orientation::Vertical, uuid, registry)
    }

    /// Closes the active pane: its leaf is removed, its parent split is
    /// replaced by the surviving sibling, and the first pane of that sibling
    /// becomes active; its id is returned. Returns `None`, changing nothing,
    /// when the active pane is the only pane (the workspace itself must be
    /// closed then).
    pub fn close_active(&mut self) -> (r: Option<u64>)
        requires
            old(self).wf(),
        ensures
            old(self).close_outcome(*final(self), r),
    {
        let ghost pre = *self;
        let active_id = self.active_pane_id;
        if self.root.is_leaf_with_id(active_id) {
            return None;
        }
        proof {
            if pre.root is Leaf {
                lemma_leaf_contains(pre.root, active_id);
            }
            lemma_remove(pre.root, active_id);
            lemma_first_position_bounds(pre.root.pane_ids(), active_id);
        }
        let surviving = remove_leaf_from_tree(&mut self.root, active_id);
        match surviving {
            None => None,
            Some(id) => {
                self.active_pane_id = id;
                self.root.update_focus_css(id);
                proof {
                    let (t, _) = pre.root.remove_leaf(active_id).unwrap();
                    lemma_marks_keep(t, id);
                    lemma_remove_keeps(
                        pre.root.pane_ids(),
                        first_position(pre.root.pane_ids(), active_id),
                        pre.next_pane_id,
                    );
                }
                Some(id)
            },
        }
    }

    /// Moves the focus to the pane adjacent to the active one in `direction`
    /// (by leaf order: Left/Up the previous pane, Right/Down the next one).
    /// Returns whether there was such a pane; otherwise nothing changes.
    pub fn focus_next_in_direction(&mut self, direction: FocusDirection) -> (moved: bool)
        requires
            old(self).wf(),
        ensures
            old(self).focus_outcome(*final(self), direction, moved),
    {
        let ghost pre = *self;
        let active_id = self.active_pane_id;
        match find_adjacent(&self.root, active_id, direction) {
            Some(new_id) => {
                self.active_pane_id = new_id;
                self.root.update_focus_css(new_id);
                proof {
                    lemma_marks_keep(pre.root, new_id);
                    let ids = pre.root.pane_ids();
                    lemma_first_position_bounds(ids, active_id);
                    let p = first_position(ids, active_id);
                    if p > 0 {
                        assert(ids.contains(ids[p - 1]));
                    }
                    if p + 1 < ids.len() {
                        assert(ids.contains(ids[p + 1]));
                    }
                }
                true
            },
            None => false,
        }
    }
}

} // verus!

verus! {

impl SplitNodeData {
    /// Pane ids of the snapshot's leaves, in order.
    pub open spec fn pane_ids(self) -> Seq<u64>
        decreases self,
    {
        match self {
            SplitNodeData::Leaf { pane_id, .. } => seq![pane_id],
            SplitNodeData::Split { start, end, .. } => start.pane_ids() + end.pane_ids(),
        }
    }
}

proof fn lemma_remove_marks(n: SplitNode, m: u64, t: u64)
    ensures
        n.with_marks(m).remove_leaf(t) == match n.remove_leaf(t) {
            Some((r, id)) => Some((r.with_marks(m), id)),
            None => None,
        },
    decreases n,
{
    match n {
        SplitNode::Leaf { .. } => {},
        SplitNode::Split { start, end, .. } => {
            lemma_marks_keep(*start, m);
            lemma_marks_keep(*end, m);
            lemma_remove_marks(*start, m, t);
            lemma_remove_marks(*end, m, t);
        },
    }
}

proof fn lemma_remove_replaced(n: SplitNode, a: u64, nid: u64, uuid: u128, o: Orientation)
    requires
        n.pane_ids().no_duplicates(),
        n.pane_ids().contains(a),
        !n.pane_ids().contains(nid),
    ensures
        n.replace_leaf(a, fresh_leaf(nid, uuid), o) matches Some(r) && r is Split && r.remove_leaf(
            nid,
        ) == Some((n, a)),
    decreases n,
{
    lemma_replace(n, a, fresh_leaf(nid, uuid), o);
    match n {
        SplitNode::Leaf { pane_id, .. } => {
            lemma_leaf_contains(n, a);
            assert(n.pane_ids()[0] == pane_id);
        },
        SplitNode::Split { start, end, .. } => {
            let x = start.pane_ids();
            let y = end.pane_ids();
            assert(n.pane_ids() == x + y);
            lemma_no_dup_parts(x, y);
            assert(!x.contains(nid)) by {
                if x.contains(nid) {
                    let k = choose|k: int| 0 <= k < x.len() && x[k] == nid;
                    assert((x + y)[k] == nid);
                }
            }
            assert(!y.contains(nid)) by {
                if y.contains(nid) {
                    let k = choose|k: int| 0 <= k < y.len() && y[k] == nid;
                    assert((x + y)[x.len() + k] == nid);
                }
            }
            lemma_ids_nonempty(*start);
            lemma_ids_nonempty(*end);
            if start.is_leaf_with(nid) {
                assert(x[0] == nid);
            }
            if end.is_leaf_with(nid) {
                assert(y[0] == nid);
            }
            lemma_replace(*start, a, fresh_leaf(nid, uuid), o);
            if x.contains(a) {
                lemma_remove_replaced(*start, a, nid, uuid, o);
            } else {
                assert(y.contains(a)) by {
                    let k = choose|k: int| 0 <= k < (x + y).len() && (x + y)[k] == a;
                    if k < x.len() {
                        assert(x[k] == a);
                    } else {
                        assert(y[k - x.len()] == a);
                    }
                }
                lemma_remove_absent(*start, nid);
                lemma_remove_replaced(*end, a, nid, uuid, o);
            }
        },
    }
}

/// Law: closing the pane that a split has just created gives back the layout
/// from before the split, with the active mark on the pane that was split,
/// and makes that pane active again.
pub proof fn law_close_undoes_split(e: SplitEngine, o: Orientation, uuid: u128)
    requires
        e.wf(),
        e.next_pane_id < u64::MAX,
    ensures
        ({
            let after = SplitEngine {
                root: e.split_layout(o, uuid),
                active_pane_id: e.next_pane_id,
                next_pane_id: (e.next_pane_id + 1) as u64,
            };
            &&& !after.root.is_leaf_with(after.active_pane_id)
            &&& after.close_layout() == Some(
                (e.root.with_marks(e.active_pane_id), e.active_pane_id),
            )
        }),
{
    let nid = e.next_pane_id;
    let a = e.active_pane_id;
    assert(!e.root.pane_ids().contains(nid)) by {
        if e.root.pane_ids().contains(nid) {
            let k = choose|k: int| 0 <= k < e.root.pane_ids().len() && e.root.pane_ids()[k] == nid;
            assert(e.root.pane_ids()[k] < nid);
        }
    }
    lemma_remove_replaced(e.root, a, nid, uuid, o);
    let r = e.root.replace_leaf(a, fresh_leaf(nid, uuid), o).unwrap();
    lemma_remove_marks(r, nid, nid);
    lemma_marks_twice(e.root, nid, a);
}

} // verus!

verus! {

/// Law: moving the focus one step and then one step in the opposite
/// direction comes back to the pane one started from (pane ids being
/// unique).
pub proof fn law_focus_round_trip(
    ids: Seq<u64>,
    active: u64,
    there: FocusDirection,
    back: FocusDirection,
)
    requires
        ids.no_duplicates(),
        (there == FocusDirection::Left || there == FocusDirection::Up) ==> (back
            == FocusDirection::Right || back == FocusDirection::Down),
        (there == FocusDirection::Right || there == FocusDirection::Down) ==> (back
            == FocusDirection::Left || back == FocusDirection::Up),
        adjacent_pane(ids, active, there) is Some,
    ensures
        adjacent_pane(ids, adjacent_pane(ids, active, there).unwrap(), back) == Some(active),
{
    lemma_first_position_bounds(ids, active);
    let p = first_position(ids, active);
    let q = if there == FocusDirection::Left || there == FocusDirection::Up {
        p - 1
    } else {
        p + 1
    };
    let other = ids[q];
    assert forall|j: int| 0 <= j < q implies ids[j] != other by {}
    lemma_first_position_scan(ids, other, q);
}

/// Law: after the active mark is set for pane `id`, the marked pane that is
/// looked up is `id` when the tree has such a pane, and none otherwise.
pub proof fn law_marked_pane_after_update(n: SplitNode, id: u64)
    ensures
        n.with_marks(id).marked_pane() == if n.pane_ids().contains(id) {
            Some(id)
        } else {
            None::<u64>
        },
{
    lemma_marks_find(n, id);
}

/// Law: a split inserts the new pane into the leaf order right after the
/// pane that was split, and leaves every other pane where it was.
pub proof fn law_split_order(e: SplitEngine, o: Orientation, uuid: u128)
    requires
        e.wf(),
    ensures
        e.split_layout(o, uuid).pane_ids() == e.root.pane_ids().insert(
            first_position(e.root.pane_ids(), e.active_pane_id) + 1,
            e.next_pane_id,
        ),
{
    let ids = e.root.pane_ids();
    lemma_first_position_bounds(ids, e.active_pane_id);
    let p = first_position(ids, e.active_pane_id);
    lemma_replace(e.root, e.active_pane_id, fresh_leaf(e.next_pane_id, uuid), o);
    let t = e.root.replace_leaf(e.active_pane_id, fresh_leaf(e.next_pane_id, uuid), o).unwrap();
    lemma_marks_keep(t, e.next_pane_id);
    assert(fresh_leaf(e.next_pane_id, uuid).pane_ids() =~= seq![e.next_pane_id]);
    assert(ids.insert(p + 1, e.next_pane_id) =~= ids.take(p + 1) + seq![e.next_pane_id] + ids.skip(
        p + 1,
    ));
}

/// Law: closing the active pane (when it is not the only one) removes it
/// from the leaf order, leaves every other pane in its place, and gives the
/// focus to a pane that remains.
pub proof fn law_close_order(e: SplitEngine)
    requires
        e.wf(),
        !e.root.is_leaf_with(e.active_pane_id),
    ensures
        e.close_layout() matches Some((t, id)) && t.pane_ids() == e.root.pane_ids().remove(
            first_position(e.root.pane_ids(), e.active_pane_id),
        ) && t.pane_ids().contains(id),
{
    if e.root is Leaf {
        lemma_leaf_contains(e.root, e.active_pane_id);
    }
    lemma_remove(e.root, e.active_pane_id);
    let (t, id) = e.root.remove_leaf(e.active_pane_id).unwrap();
    lemma_marks_keep(t, id);
}

/// Law: a layout snapshot lists the panes in the same order as the tree.
pub proof fn law_snapshot_keeps_panes(n: SplitNode, data: SplitNodeData)
    requires
        n.snapshot_is(data),
    ensures
        data.pane_ids() == n.pane_ids(),
    decreases n,
{
    match n {
        SplitNode::Leaf { .. } => {},
        SplitNode::Split { start, end, .. } => {
            match data {
                SplitNodeData::Split { start: ds, end: de, .. } => {
                    law_snapshot_keeps_panes(*start, *ds);
                    law_snapshot_keeps_panes(*end, *de);
                },
                _ => {},
            }
        },
    }
}

} // verus!

verus! {

impl SplitNode {
    /// The orientation of the split that has the leaf with pane id `id` as a
    /// direct child (the first such split, start before end), or `None`
    /// when no split has that leaf as a child.
    pub open spec fn parent_orientation(self, id: u64) -> Option<Orientation>
        decreases self,
    {
        match self {
            SplitNode::Leaf { .. } => None,
            SplitNode::Split { orientation, start, end } => if start.is_leaf_with(id)
                || end.is_leaf_with(id) {
                Some(orientation)
            } else {
                match start.parent_orientation(id) {
                    Some(x) => Some(x),
                    None => end.parent_orientation(id),
                }
            },
        }
    }

    /// Whether some split has the leaf `a` as its start child and the leaf
    /// `b` as its end child.
    pub open spec fn holds_pair(self, a: u64, b: u64) -> bool
        decreases self,
    {
        match self {
            SplitNode::Leaf { .. } => false,
            SplitNode::Split { start, end, .. } => (start.is_leaf_with(a) && end.is_leaf_with(b))
                || start.holds_pair(a, b) || end.holds_pair(a, b),
        }
    }
}

proof fn lemma_leaf_in_ids(n: SplitNode, id: u64)
    ensures
        n.is_leaf_with(id) ==> n.pane_ids().contains(id),
{
    if n.is_leaf_with(id) {
        assert(n.pane_ids()[0] == id);
    }
}

proof fn lemma_parent_absent(n: SplitNode, id: u64)
    requires
        !n.pane_ids().contains(id),
    ensures
        n.parent_orientation(id) is None,
        !n.holds_pair(id, id),
    decreases n,
{
    if let SplitNode::Split { start, end, .. } = n {
        let x = start.pane_ids();
        let y = end.pane_ids();
        assert(!x.contains(id)) by {
            if x.contains(id) {
                let k = choose|k: int| 0 <= k < x.len() && x[k] == id;
                assert((x + y)[k] == id);
            }
        }
        assert(!y.contains(id)) by {
            if y.contains(id) {
                let k = choose|k: int| 0 <= k < y.len() && y[k] == id;
                assert((x + y)[x.len() + k] == id);
            }
        }
        lemma_leaf_in_ids(*start, id);
        lemma_leaf_in_ids(*end, id);
        lemma_parent_absent(*start, id);
        lemma_parent_absent(*end, id);
    }
}

proof fn lemma_parent_marks(n: SplitNode, m: u64, id: u64, a: u64, b: u64)
    ensures
        n.with_marks(m).parent_orientation(id) == n.parent_orientation(id),
        n.with_marks(m).holds_pair(a, b) == n.holds_pair(a, b),
    decreases n,
{
    if let SplitNode::Split { start, end, .. } = n {
        lemma_marks_keep(*start, m);
        lemma_marks_keep(*end, m);
        lemma_parent_marks(*start, m, id, a, b);
        lemma_parent_marks(*end, m, id, a, b);
    }
}

proof fn lemma_replace_parent(n: SplitNode, a: u64, nid: u64, uuid: u128, o: Orientation, p: u64)
    requires
        n.pane_ids().no_duplicates(),
        n.pane_ids().contains(a),
        !n.pane_ids().contains(nid),
    ensures
        n.replace_leaf(a, fresh_leaf(nid, uuid), o) matches Some(r) && r is Split
            && r.parent_orientation(nid) == Some(o) && r.parent_orientation(a) == Some(o)
            && r.holds_pair(a, nid) && (p != a && p != nid ==> r.parent_orientation(p)
            == n.parent_orientation(p)),
    decreases n,
{
    let leaf = fresh_leaf(nid, uuid);
    lemma_replace(n, a, leaf, o);
    match n {
        SplitNode::Leaf { pane_id, .. } => {
            assert(n.pane_ids()[0] == pane_id);
            assert(pane_id == a);
            assert(nid != a);
            let r = SplitNode::Split { orientation: o, start: Box::new(n), end: Box::new(leaf) };
            assert(n.replace_leaf(a, leaf, o) == Some(r));
            assert(n.parent_orientation(p) is None);
            assert(leaf.parent_orientation(p) is None);
            assert(r.parent_orientation(nid) == Some(o));
            assert(r.parent_orientation(a) == Some(o));
            assert(r.holds_pair(a, nid));
        },
        SplitNode::Split { orientation, start, end } => {
            let x = start.pane_ids();
            let y = end.pane_ids();
            lemma_no_dup_parts(x, y);
            lemma_replace(*start, a, leaf, o);
            lemma_replace(*end, a, leaf, o);
            assert(!x.contains(nid) && !y.contains(nid)) by {
                if x.contains(nid) {
                    let k = choose|k: int| 0 <= k < x.len() && x[k] == nid;
                    assert((x + y)[k] == nid);
                }
                if y.contains(nid) {
                    let k = choose|k: int| 0 <= k < y.len() && y[k] == nid;
                    assert((x + y)[x.len() + k] == nid);
                }
            }
            lemma_leaf_in_ids(*start, nid);
            lemma_leaf_in_ids(*end, nid);
            lemma_leaf_in_ids(*start, a);
            lemma_leaf_in_ids(*end, a);
            if x.contains(a) {
                assert(!y.contains(a)) by {
                    let i = choose|i: int| 0 <= i < x.len() && x[i] == a;
                    if y.contains(a) {
                        let j = choose|j: int| 0 <= j < y.len() && y[j] == a;
                    }
                }
                lemma_replace_parent(*start, a, nid, uuid, o, p);
                lemma_parent_absent(*end, a);
                lemma_parent_absent(*end, nid);
                if start.is_leaf_with(p) {
                    lemma_leaf_in_ids(*start, p);
                }
            } else {
                assert(y.contains(a)) by {
                    let k = choose|k: int| 0 <= k < (x + y).len() && (x + y)[k] == a;
                    if k < x.len() {
                        assert(x[k] == a);
                    } else {
                        assert(y[k - x.len()] == a);
                    }
                }
                lemma_replace_parent(*end, a, nid, uuid, o, p);
                lemma_parent_absent(*start, a);
                lemma_parent_absent(*start, nid);
            }
        },
    }
}

/// Law: a split with orientation `o` puts the formerly active pane and the
/// new pane side by side in a split of orientation `o` (the active pane
/// first), at whatever depth the active pane sits; every other pane keeps
/// the orientation of the split it was in.
pub proof fn law_split_orientation(e: SplitEngine, o: Orientation, uuid: u128)
    requires
        e.wf(),
        e.next_pane_id < u64::MAX,
    ensures
        e.split_layout(o, uuid).holds_pair(e.active_pane_id, e.next_pane_id),
        e.split_layout(o, uuid).parent_orientation(e.active_pane_id) == Some(o),
        e.split_layout(o, uuid).parent_orientation(e.next_pane_id) == Some(o),
        forall|p: u64|
            p != e.active_pane_id && p != e.next_pane_id ==> #[trigger] e.split_layout(
                o,
                uuid,
            ).parent_orientation(p) == e.root.parent_orientation(p),
{
    let nid = e.next_pane_id;
    let a = e.active_pane_id;
    assert(!e.root.pane_ids().contains(nid)) by {
        if e.root.pane_ids().contains(nid) {
            let k = choose|k: int| 0 <= k < e.root.pane_ids().len() && e.root.pane_ids()[k] == nid;
            assert(e.root.pane_ids()[k] < nid);
        }
    }
    lemma_replace_parent(e.root, a, nid, uuid, o, a);
    let r = e.root.replace_leaf(a, fresh_leaf(nid, uuid), o).unwrap();
    lemma_parent_marks(r, nid, a, a, nid);
    lemma_parent_marks(r, nid, nid, a, nid);
    assert forall|p: u64| p != a && p != nid implies #[trigger] e.split_layout(o, uuid).parent_orientation(p)
        == e.root.parent_orientation(p) by {
        lemma_replace_parent(e.root, a, nid, uuid, o, p);
        lemma_parent_marks(r, nid, p, a, nid);
    }
}

} // verus!

verus! {

/// The orientation a snapshot's orientation name stands for: "horizontal"
/// for side by side, "vertical" for one above the other; `None` for any
/// other text.
pub open spec fn orientation_from_name(name: Seq<char>) -> Option<Orientation> {
    if name == "horizontal"@ {
        Some(Orientation::Horizontal)
    } else if name == "vertical"@ {
        Some(Orientation::Vertical)
    } else {
        None
    }
}

/// Law: the two orientations are stored under different names, and reading
/// a stored name back gives the orientation it was stored for.
pub proof fn law_orientation_names(a: Orientation, b: Orientation)
    ensures
        orientation_from_name(orientation_name(a)) == Some(a),
        orientation_name(a) == orientation_name(b) ==> a == b,
{
    reveal_strlit("horizontal");
    reveal_strlit("vertical");
    assert("horizontal"@[0] != "vertical"@[0]);
}

/// Law: a snapshot keeps the orientation of a split: where the tree is a
/// split, its snapshot is a split whose name reads back as that split's
/// orientation (the snapshot of each subtree being part of the snapshot,
/// this holds of every split at any depth).
pub proof fn law_snapshot_keeps_orientation(n: SplitNode, data: SplitNodeData)
    requires
        n.snapshot_is(data),
    ensures
        n matches SplitNode::Split { orientation, .. } ==> data matches SplitNodeData::Split {
            orientation: name,
            ..
        } && orientation_from_name(name@) == Some(orientation),
{
    if let SplitNode::Split { orientation, .. } = n {
        law_orientation_names(orientation, orientation);
    }
}

} // verus!
