//! Directional workspace search: given the ordered sequence of workspaces,
//! the active one, and which workspaces are already visible on another
//! output, compute the index to activate next in a given direction.
//!
//! The caller supplies the "visible elsewhere" facts as one boolean per
//! workspace, in workspace order. Scanning from the active position in the
//! chosen direction, the first workspace not visible elsewhere wins; if the
//! scan runs off the end, a second pass starts over from that direction's
//! origin; if every workspace is visible elsewhere, the active index is
//! returned unchanged. The backward algorithm is the exact mirror of the
//! forward one, not the forward one applied to a reversed copy.

use vstd::prelude::*;

verus! {

/// The scan direction for workspace cycling.
#[derive(Clone, Copy, Debug, PartialEq, Eq, Structural)]
pub enum Direction {
    Forward,
    Backward,
}

impl Direction {
    /// The opposite direction.
    pub fn reverse(self) -> (r: Direction)
        ensures
            self == Direction::Forward ==> r == Direction::Backward,
            self == Direction::Backward ==> r == Direction::Forward,
    {
        match self {
            Direction::Forward => Direction::Backward,
            Direction::Backward => Direction::Forward,
        }
    }
}

/// Every workspace with an index in `[lo, hi)` is visible elsewhere.
pub open spec fn all_visible_between(vis: Seq<bool>, lo: int, hi: int) -> bool {
    forall|j: int| lo <= j < hi ==> vis[j]
}

/// Some workspace with an index in `[lo, hi)` is not visible elsewhere.
pub open spec fn some_hidden_between(vis: Seq<bool>, lo: int, hi: int) -> bool {
    exists|j: int| lo <= j < hi && !vis[j]
}

/// The index the search must return: the first index strictly beyond
/// `active` (in `dir`) whose workspace is not visible elsewhere; failing
/// that, the first such index scanning the whole sequence from `dir`'s
/// origin; failing that, `active` itself.
pub open spec fn is_search_result(vis: Seq<bool>, active: int, dir: Direction, r: int) -> bool {
    match dir {
        Direction::Forward => {
            if some_hidden_between(vis, active + 1, vis.len() as int) {
                &&& active < r < vis.len()
                &&& !vis[r]
                &&& all_visible_between(vis, active + 1, r)
            } else if some_hidden_between(vis, 0, vis.len() as int) {
                &&& 0 <= r < vis.len()
                &&& !vis[r]
                &&& all_visible_between(vis, 0, r)
            } else {
                r == active
            }
        },
        Direction::Backward => {
            if some_hidden_between(vis, 0, active) {
                &&& 0 <= r < active
                &&& !vis[r]
                &&& all_visible_between(vis, r + 1, active)
            } else if some_hidden_between(vis, 0, vis.len() as int) {
                &&& 0 <= r < vis.len()
                &&& !vis[r]
                &&& all_visible_between(vis, r + 1, vis.len() as int)
            } else {
                r == active
            }
        },
    }
}

/// The index of the workspace to activate next.
///
/// `visible_elsewhere[i]` says whether workspace `i` is already visible on
/// some output. `active` is the index of the currently active workspace.
pub fn next_workspace_index(visible_elsewhere: &Vec<bool>, active: usize, dir: Direction) -> (r:
    usize)
    requires
        visible_elsewhere@.len() > 0,
        active < visible_elsewhere@.len(),
    ensures
        r < visible_elsewhere@.len(),
        is_search_result(visible_elsewhere@, active as int, dir, r as int),
{
    let n = visible_elsewhere.len();
    match dir {
        Direction::Forward => {
            let mut j = active + 1;
            while j < n
                invariant
                    dir == Direction::Forward,
                    active < j <= n,
                    n == visible_elsewhere@.len(),
                    all_visible_between(visible_elsewhere@, active + 1, j as int),
                decreases n - j,
            {
                if !visible_elsewhere[j] {
                    return j;
                }
                j = j + 1;
            }
            let mut j: usize = 0;
            while j < n
                invariant
                    dir == Direction::Forward,
                    active < n,
                    j <= n,
                    n == visible_elsewhere@.len(),
                    all_visible_between(visible_elsewhere@, active + 1, n as int),
                    all_visible_between(visible_elsewhere@, 0, j as int),
                decreases n - j,
            {
                if !visible_elsewhere[j] {
                    return j;
                }
                j = j + 1;
            }
            active
        },
        Direction::Backward => {
            let mut j = active;
            while j > 0
                invariant
                    dir == Direction::Backward,
                    j <= active,
                    active < visible_elsewhere@.len(),
                    n == visible_elsewhere@.len(),
                    all_visible_between(visible_elsewhere@, j as int, active as int),
                decreases j,
            {
                j = j - 1;
                if !visible_elsewhere[j] {
                    return j;
                }
            }
            let mut j = n;
            while j > 0
                invariant
                    dir == Direction::Backward,
                    active < n,
                    j <= n,
                    n == visible_elsewhere@.len(),
                    all_visible_between(visible_elsewhere@, 0, active as int),
                    all_visible_between(visible_elsewhere@, j as int, n as int),
                decreases j,
            {
                j = j - 1;
                if !visible_elsewhere[j] {
                    return j;
                }
            }
            active
        },
    }
}

} // verus!
