//! Die pieces and their pips.

use vstd::prelude::*;

verus! {

/// The shape of a die piece, which bounds its pip count.
#[derive(Clone, Copy, Debug, PartialEq, Eq, Structural)]
pub enum DieKind {
    D2,
    D4,
    D6,
    D8,
    D12,
    D20,
}

impl DieKind {
    pub open spec fn max(self) -> u8 {
        match self {
            DieKind::D2 => 2,
            DieKind::D4 => 4,
            DieKind::D6 => 6,
            DieKind::D8 => 8,
            DieKind::D12 => 12,
            DieKind::D20 => 20,
        }
    }

    /// Small dice show their pips; larger ones show a number.
    pub open spec fn shows_pips(self) -> bool {
        self is D2 || self is D4 || self is D6
    }

    pub fn max_pips(&self) -> (r: u8)
        ensures
            r == self.max(),
    {
        match self {
            DieKind::D2 => 2,
            DieKind::D4 => 4,
            DieKind::D6 => 6,
            DieKind::D8 => 8,
            DieKind::D12 => 12,
            DieKind::D20 => 20,
        }
    }

    pub fn show_pips(&self) -> (r: bool)
        ensures
            r == self.shows_pips(),
    {
        match self {
            DieKind::D2 | DieKind::D4 | DieKind::D6 => true,
            _ => false,
        }
    }
}

impl Default for DieKind {
    fn default() -> (r: DieKind)
        ensures
            r == DieKind::D6,
    {
        DieKind::D6
    }
}

/// Where the pips of a face showing `n` sit, on a 3 by 3 lattice of offsets
/// from the face's centre (x to the right, y upwards).
pub open spec fn pip_layout(n: u8) -> Seq<(i8, i8)> {
    if n == 1 {
        seq![(0i8, 0i8)]
    } else if n == 2 {
        seq![(1i8, 1i8), (-1i8, -1i8)]
    } else if n == 3 {
        seq![(1i8, 1i8), (0i8, 0i8), (-1i8, -1i8)]
    } else if n == 4 {
        seq![(1i8, 1i8), (-1i8, -1i8), (1i8, -1i8), (-1i8, 1i8)]
    } else if n == 5 {
        seq![(1i8, 1i8), (-1i8, -1i8), (1i8, -1i8), (-1i8, 1i8), (0i8, 0i8)]
    } else if n == 6 {
        seq![(1i8, 1i8), (1i8, 0i8), (1i8, -1i8), (-1i8, -1i8), (-1i8, 0i8), (-1i8, 1i8)]
    } else {
        seq![]
    }
}

/// A combatant piece: its kind and its current pip count, the resource that
/// actions spend and restore.
#[derive(Clone, Copy, Debug, PartialEq, Eq, Structural)]
pub struct Die {
    pub pip_count: u8,
    pub kind: DieKind,
}

impl Die {
    /// The pip count is within what the kind allows.
    pub open spec fn wf(self) -> bool {
        self.pip_count <= self.kind.max()
    }

    /// Pip offsets to draw for a die that shows pips; `None` for one that
    /// shows a number.
    pub fn pip_positions(&self) -> (r: Option<Vec<(i8, i8)>>)
        requires
            self.kind.shows_pips() ==> self.pip_count <= 6,
        ensures
            self.kind.shows_pips() ==> (r matches Some(v) && v@ == pip_layout(self.pip_count)),
            !self.kind.shows_pips() ==> r is None,
    {
        if !self.kind.show_pips() {
            return None;
        }
        let mut v: Vec<(i8, i8)> = Vec::new();
        let n = self.pip_count;
        if n == 1 {
            v.push((0, 0));
        } else if n == 2 {
            v.push((1, 1));
            v.push((-1, -1));
        } else if n == 3 {
            v.push((1, 1));
            v.push((0, 0));
            v.push((-1, -1));
        } else if n == 4 || n == 5 {
            v.push((1, 1));
            v.push((-1, -1));
            v.push((1, -1));
            v.push((-1, 1));
            if n == 5 {
                v.push((0, 0));
            }
        } else if n == 6 {
            v.push((1, 1));
            v.push((1, 0));
            v.push((1, -1));
            v.push((-1, -1));
            v.push((-1, 0));
            v.push((-1, 1));
        }
        assert(v@ =~= pip_layout(n));
        Some(v)
    }

    /// A die with no pips left is spent.
    pub fn is_depleted(&self) -> (r: bool)
        ensures
            r == (self.pip_count == 0),
    {
        self.pip_count == 0
    }
}

} // verus!
