//! Permutation tables of the Perlin noise and their gradient indexing.
//!
//! The noise keeps three independent random permutations of
//! `[0, POINT_COUNT)`. Picking the gradient of a lattice corner hashes the
//! corner's coordinates through the three tables with xor. The gradient
//! vectors themselves, and the interpolation of their dot products, are
//! floating point and live with the renderer's front end; it reads the
//! table index from here.

use vstd::prelude::*;
use vstd::pervasive::VecAdditionalExecFns;

verus! {

/// Number of entries of each permutation table.
pub const POINT_COUNT: usize = 256;

/// `s` holds each value of `[0, POINT_COUNT)` exactly once.
pub open spec fn is_permutation(s: Seq<usize>) -> bool {
    &&& s.len() == POINT_COUNT
    &&& forall|i: int| 0 <= i < s.len() ==> s[i] < POINT_COUNT
    &&& forall|i: int, j: int| 0 <= i < j < s.len() ==> s[i] != s[j]
}

/// Relies on rand's `Rng::gen_range` on `0..bound`, which returns a value
/// of the non-empty range.
#[verifier::external_body]
fn random_index_below(bound: usize) -> (r: usize)
    requires
        bound > 0,
    ensures
        r < bound,
{
    rand::Rng::gen_range(&mut rand::thread_rng(), 0..bound)
}

/// Fisher-Yates shuffle, drawing the swap target strictly below the
/// running index; keeps the table a permutation.
fn permute(p: &mut Vec<usize>)
    requires
        is_permutation(old(p)@),
    ensures
        is_permutation(final(p)@),
{
    let mut index: usize = POINT_COUNT - 1;
    while index >= 1
        invariant
            index < POINT_COUNT,
            is_permutation(p@),
        decreases index,
    {
        let target = random_index_below(index);
        let ghost s = p@;
        let at_index = p[index];
        let at_target = p[target];
        p.set(index, at_target);
        p.set(target, at_index);
        proof {
            assert(p@ == s.update(index as int, at_target).update(target as int, at_index));
            assert(is_permutation(p@));
        }
        index = index - 1;
    }
}

/// A fresh table: the identity filled in, then shuffled.
fn perlin_generate_perm() -> (r: Vec<usize>)
    ensures
        is_permutation(r@),
{
    let mut p: Vec<usize> = Vec::new();
    let mut i: usize = 0;
    while i < POINT_COUNT
        invariant
            i <= POINT_COUNT,
            p@.len() == i,
            forall|k: int| 0 <= k < i ==> p@[k] == k,
        decreases POINT_COUNT - i,
    {
        p.push(i);
        i = i + 1;
    }
    permute(&mut p);
    p
}

/// The three permutation tables of one Perlin noise instance.
pub struct PerlinPerms {
    pub perm_x: Vec<usize>,
    pub perm_y: Vec<usize>,
    pub perm_z: Vec<usize>,
}

impl PerlinPerms {
    pub open spec fn wf(&self) -> bool {
        &&& is_permutation(self.perm_x@)
        &&& is_permutation(self.perm_y@)
        &&& is_permutation(self.perm_z@)
    }

    /// Three freshly shuffled tables.
    pub fn new() -> (r: Self)
        ensures
            r.wf(),
    {
        Self {
            perm_x: perlin_generate_perm(),
            perm_y: perlin_generate_perm(),
            perm_z: perlin_generate_perm(),
        }
    }

    /// Builds tables from given contents; `None` unless each is a
    /// permutation of `[0, POINT_COUNT)`.
    pub fn from_tables(perm_x: Vec<usize>, perm_y: Vec<usize>, perm_z: Vec<usize>) -> (r: Option<
        Self,
    >)
        ensures
            match r {
                Some(perms) => {
                    &&& perms.wf()
                    &&& perms.perm_x == perm_x
                    &&& perms.perm_y == perm_y
                    &&& perms.perm_z == perm_z
                },
                None => !(is_permutation(perm_x@) && is_permutation(perm_y@) && is_permutation(
                    perm_z@,
                )),
            },
    {
        if check_permutation(&perm_x) && check_permutation(&perm_y) && check_permutation(&perm_z) {
            Some(Self { perm_x, perm_y, perm_z })
        } else {
            None
        }
    }

    /// The table index of the gradient at lattice corner
    /// `(i + di, j + dj, k + dk)`: each coordinate folded into the table
    /// size, sent through its table, and the three results xor-ed.
    pub open spec fn spec_gradient_index(
        &self,
        i: usize,
        j: usize,
        k: usize,
        di: usize,
        dj: usize,
        dk: usize,
    ) -> usize {
        self.perm_x@[((i + di) as usize & 255) as int] ^ self.perm_y@[((j + dj) as usize
            & 255) as int] ^ self.perm_z@[((k + dk) as usize & 255) as int]
    }

    pub fn gradient_index(&self, i: usize, j: usize, k: usize, di: usize, dj: usize, dk: usize)
        -> (r: usize)
        requires
            self.wf(),
            i + di <= usize::MAX,
            j + dj <= usize::MAX,
            k + dk <= usize::MAX,
        ensures
            r == self.spec_gradient_index(i, j, k, di, dj, dk),
            r < POINT_COUNT,
    {
        let sx: usize = i + di;
        let sy: usize = j + dj;
        let sz: usize = k + dk;
        let ix: usize = sx & 255;
        let jy: usize = sy & 255;
        let kz: usize = sz & 255;
        assert(ix < 256 && jy < 256 && kz < 256) by (bit_vector)
            requires
                ix == sx & 255,
                jy == sy & 255,
                kz == sz & 255,
        ;
        let px = self.perm_x[ix];
        let py = self.perm_y[jy];
        let pz = self.perm_z[kz];
        let r = px ^ py ^ pz;
        assert(r < 256) by (bit_vector)
            requires
                px < 256 && py < 256 && pz < 256 && r == (px ^ py ^ pz),
        ;
        r
    }
}

/// Gradient indexing is a function of the tables alone: two instances
/// with equal tables pick the same gradient at every lattice corner.
pub proof fn lemma_gradient_index_deterministic(
    a: PerlinPerms,
    b: PerlinPerms,
    i: usize,
    j: usize,
    k: usize,
    di: usize,
    dj: usize,
    dk: usize,
)
    requires
        a.perm_x@ == b.perm_x@,
        a.perm_y@ == b.perm_y@,
        a.perm_z@ == b.perm_z@,
    ensures
        a.spec_gradient_index(i, j, k, di, dj, dk) == b.spec_gradient_index(i, j, k, di, dj, dk),
{
}

/// `true` iff `p` holds each value of `[0, POINT_COUNT)` exactly once.
pub fn check_permutation(p: &Vec<usize>) -> (r: bool)
    ensures
        r == is_permutation(p@),
{
    if p.len() != POINT_COUNT {
        return false;
    }
    let mut seen: Vec<bool> = Vec::new();
    let mut i: usize = 0;
    while i < POINT_COUNT
        invariant
            i <= POINT_COUNT,
            seen@.len() == i,
            forall|k: int| 0 <= k < i ==> seen@[k] == false,
        decreases POINT_COUNT - i,
    {
        seen.push(false);
        i = i + 1;
    }
    let mut idx: usize = 0;
    while idx < p.len()
        invariant
            p@.len() == POINT_COUNT,
            idx <= POINT_COUNT,
            seen@.len() == POINT_COUNT,
            forall|k: int| 0 <= k < idx ==> p@[k] < POINT_COUNT,
            forall|a: int, b: int| 0 <= a < b < idx ==> p@[a] != p@[b],
            forall|v: int| 0 <= v < POINT_COUNT ==> (seen@[v] == exists|k: int|
                0 <= k < idx && p@[k] == v),
        decreases p@.len() - idx,
    {
        let v = p[idx];
        if v >= POINT_COUNT {
            return false;
        }
        if seen[v] {
            assert(exists|k: int| 0 <= k < idx && p@[k] == v as int);
            return false;
        }
        seen.set(v, true);
        idx = idx + 1;
    }
    true
}

} // verus!
