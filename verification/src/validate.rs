use vstd::prelude::*;

use crate::graph::{GraphDescriptor, ImageKind, PassNode};

verus! {

/// Whether `x` occurs in `v`.
fn contains(v: &Vec<usize>, x: usize) -> (found: bool)
    ensures
        found == v@.contains(x),
{
    let mut i: usize = 0;
    while i < v.len()
        invariant
            i <= v.len(),
            forall|j: int| 0 <= j < i ==> v@[j] != x,
        decreases v.len() - i,
    {
        if v[i] == x {
            return true;
        }
        i += 1;
    }
    false
}

/// Whether every element of `v` is below `bound`.
fn all_below(v: &Vec<usize>, bound: usize) -> (ok: bool)
    ensures
        ok == (forall|k: int| 0 <= k < v@.len() ==> v@[k] < bound),
{
    let mut i: usize = 0;
    while i < v.len()
        invariant
            i <= v.len(),
            forall|k: int| 0 <= k < i ==> v@[k] < bound,
        decreases v.len() - i,
    {
        if v[i] >= bound {
            return false;
        }
        i += 1;
    }
    true
}

/// Whether no element of `v` occurs twice.
fn all_distinct(v: &Vec<usize>) -> (ok: bool)
    ensures
        ok == v@.no_duplicates(),
{
    let mut i: usize = 0;
    while i < v.len()
        invariant
            i <= v.len(),
            forall|a: int, b: int| 0 <= a < i && 0 <= b < v@.len() && a != b ==> v@[a] != v@[b],
        decreases v.len() - i,
    {
        let mut j: usize = 0;
        while j < v.len()
            invariant
                i < v.len(),
                j <= v.len(),
                forall|b: int| 0 <= b < j && b != i ==> v@[i as int] != v@[b],
            decreases v.len() - j,
        {
            if j != i && v[i] == v[j] {
                return false;
            }
            j += 1;
        }
        i += 1;
    }
    true
}

impl ImageKind {
    /// Whether the image has a non-zero extent, a layer and a sample.
    pub fn is_valid(&self) -> (ok: bool)
        ensures
            ok == self.valid(),
    {
        self.width > 0 && self.height > 0 && self.layers > 0 && self.samples > 0
    }
}

impl PassNode {
    /// Whether the pass writes the image `image`.
    pub fn writes(&self, image: usize) -> (ok: bool)
        ensures
            ok == self@.writes(image),
    {
        if contains(&self.color_attachments, image) {
            return true;
        }
        match self.depth_attachment {
            Some(d) => d == image,
            None => false,
        }
    }
}

impl GraphDescriptor {
    fn resources_well_formed(&self) -> (ok: bool)
        ensures
            ok == self@.resources_wf(),
    {
        let mut i: usize = 0;
        while i < self.resources.len()
            invariant
                i <= self.resources.len(),
                forall|j: int|
                    0 <= j < i ==> {
                        &&& (#[trigger] self@.resources[j]).id == j
                        &&& self@.resources[j].kind.valid()
                    },
            decreases self.resources.len() - i,
        {
            let image = &self.resources[i];
            if image.id != i || !image.kind.is_valid() {
                assert(self@.resources[i as int] == *image);
                return false;
            }
            i += 1;
        }
        true
    }

    fn pass_well_formed(&self, p: usize) -> (ok: bool)
        requires
            p < self.passes.len(),
        ensures
            ok == self@.pass_wf(p as int),
    {
        let pass = &self.passes[p];
        assert(self@.passes[p as int] == pass@);
        if pass.id != p {
            return false;
        }
        if !all_below(&pass.color_attachments, self.resources.len()) {
            proof {
                let k = choose|k: int|
                    0 <= k < pass.color_attachments@.len() && pass.color_attachments@[k]
                        >= self.resources.len();
                assert(!self@.has_resource(self@.passes[p as int].color_attachments[k]));
            }
            return false;
        }
        match pass.depth_attachment {
            Some(d) => d < self.resources.len(),
            None => true,
        }
    }

    fn passes_well_formed(&self) -> (ok: bool)
        ensures
            ok == (forall|p: int| 0 <= p < self@.passes.len() ==> #[trigger] self@.pass_wf(p)),
    {
        let mut p: usize = 0;
        while p < self.passes.len()
            invariant
                p <= self.passes.len(),
                self@.passes.len() == self.passes.len(),
                forall|q: int| 0 <= q < p ==> #[trigger] self@.pass_wf(q),
            decreases self.passes.len() - p,
        {
            if !self.pass_well_formed(p) {
                return false;
            }
            p += 1;
        }
        true
    }

    fn present_well_formed(&self) -> (ok: bool)
        ensures
            ok == self@.present_wf(),
    {
        self.present.source_image < self.resources.len() && self.present.dependencies.len() > 0
            && all_distinct(&self.present.dependencies) && all_below(
            &self.present.dependencies,
            self.passes.len(),
        )
    }

    fn present_follows_writers(&self) -> (ok: bool)
        ensures
            ok == self@.present_after_writers(),
    {
        let mut p: usize = 0;
        while p < self.passes.len()
            invariant
                p <= self.passes.len(),
                self@.passes.len() == self.passes.len(),
                forall|q: int|
                    0 <= q < p && (#[trigger] self@.passes[q]).writes(self@.present.source_image)
                        ==> self@.present.dependencies.contains(self@.passes[q].id),
            decreases self.passes.len() - p,
        {
            let pass = &self.passes[p];
            assert(self@.passes[p as int] == pass@);
            if pass.writes(self.present.source_image) && !contains(
                &self.present.dependencies,
                pass.id,
            ) {
                return false;
            }
            p += 1;
        }
        true
    }

    /// Checks the structural invariant: ids are positions, every attachment
    /// names a declared resource, and the present node waits, once each, for
    /// declared passes that include every writer of the image it shows.
    pub fn is_well_formed(&self) -> (ok: bool)
        ensures
            ok == self@.wf(),
    {
        self.resources_well_formed() && self.passes_well_formed() && self.present_well_formed()
            && self.present_follows_writers()
    }
}

} // verus!
