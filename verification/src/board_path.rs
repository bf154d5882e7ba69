use crate::board_position::BoardPosition;
use vstd::prelude::*;
use vstd::std_specs::convert::FromSpecImpl;

verus! {

/// A path: the squares a piece passes in one direction, nearest first.
#[derive(Debug, Clone, PartialEq, Eq)]
pub struct BoardPath(pub Vec<BoardPosition>);

impl View for BoardPath {
    type V = Seq<BoardPosition>;

    /// The squares of the path, in order.
    open spec fn view(&self) -> Seq<BoardPosition> {
        self.0@
    }
}

/// The squares of each path of a list, in order.
pub open spec fn paths_view(paths: Seq<BoardPath>) -> Seq<Seq<BoardPosition>> {
    Seq::new(paths.len(), |i: int| paths[i]@)
}

/// Whether every square of a path is well formed.
pub open spec fn path_wf(path: Seq<BoardPosition>) -> bool {
    forall|i: int| 0 <= i < path.len() ==> (#[trigger] path[i]).wf()
}

/// Whether every square of every path is well formed.
pub open spec fn paths_wf(paths: Seq<Seq<BoardPosition>>) -> bool {
    forall|i: int| 0 <= i < paths.len() ==> path_wf(#[trigger] paths[i])
}

/// The squares of all the paths, one path after another.
pub open spec fn flatten(paths: Seq<Seq<BoardPosition>>) -> Seq<BoardPosition>
    decreases paths.len(),
{
    if paths.len() == 0 {
        Seq::empty()
    } else {
        flatten(paths.drop_last()) + paths.last()
    }
}

impl BoardPath {
    /// A copy of the path.
    pub fn duplicate(&self) -> (copy: BoardPath)
        ensures
            copy@ == self@,
    {
        let mut squares: Vec<BoardPosition> = Vec::new();
        let mut i: usize = 0;
        while i < self.0.len()
            invariant
                i <= self.0.len(),
                squares@ == self.0@.take(i as int),
            decreases self.0.len() - i,
        {
            squares.push(self.0[i]);
            assert(squares@ =~= self.0@.take(i + 1));
            i += 1;
        }
        assert(squares@ =~= self@);
        BoardPath(squares)
    }
}

/// Returns the squares of all the paths, one path after another.
pub fn flatten_paths(paths: &Vec<BoardPath>) -> (squares: Vec<BoardPosition>)
    ensures
        squares@ == flatten(paths_view(paths@)),
{
    let ghost all = paths_view(paths@);
    let mut squares: Vec<BoardPosition> = Vec::new();
    let mut i: usize = 0;
    assert(all.take(0) =~= Seq::<Seq<BoardPosition>>::empty());
    while i < paths.len()
        invariant
            all == paths_view(paths@),
            i <= paths.len(),
            squares@ == flatten(all.take(i as int)),
        decreases paths.len() - i,
    {
        let path = &paths[i].0;
        let ghost before = squares@;
        let mut j: usize = 0;
        while j < path.len()
            invariant
                j <= path.len(),
                squares@ == before + path@.take(j as int),
            decreases path.len() - j,
        {
            squares.push(path[j]);
            assert(squares@ =~= before + path@.take(j + 1));
            j += 1;
        }
        proof {
            assert(path@.take(path.len() as int) =~= path@);
            assert(all.take(i + 1).drop_last() =~= all.take(i as int));
            assert(all.take(i + 1).last() == path@);
        }
        i += 1;
    }
    assert(all.take(paths.len() as int) =~= all);
    squares
}

/// Returns a copy of a list of paths.
pub fn duplicate_paths(paths: &Vec<BoardPath>) -> (copy: Vec<BoardPath>)
    ensures
        paths_view(copy@) == paths_view(paths@),
{
    let mut copy: Vec<BoardPath> = Vec::new();
    let mut i: usize = 0;
    while i < paths.len()
        invariant
            i <= paths.len(),
            copy@.len() == i,
            forall|k: int| 0 <= k < i ==> (#[trigger] copy@[k])@ == paths@[k]@,
        decreases paths.len() - i,
    {
        copy.push(paths[i].duplicate());
        i += 1;
    }
    assert(paths_view(copy@) =~= paths_view(paths@));
    copy
}

impl From<Vec<BoardPosition>> for BoardPath {
    /// The path through the given squares.
    fn from(value: Vec<BoardPosition>) -> (path: BoardPath)
    {
        BoardPath(value)
    }
}

impl FromSpecImpl<Vec<BoardPosition>> for BoardPath {
    open spec fn obeys_from_spec() -> bool {
        true
    }

    open spec fn from_spec(value: Vec<BoardPosition>) -> BoardPath {
        BoardPath(value)
    }
}

} // verus!
