//! Triangle index lists of loaded models.
use vstd::prelude::*;

verus! {

/// The index at `i` of `indices` once every complete triangle is rewound:
/// each triangle `[a, b, c]` becomes `[a, c, b]`.
pub open spec fn spec_rewound_index(indices: Seq<u32>, i: int) -> u32 {
    let t = i - i % 3;
    if i % 3 == 0 {
        indices[t]
    } else if i % 3 == 1 {
        indices[t + 2]
    } else {
        indices[t + 1]
    }
}

/// The triangle indices of a model, rewound so that faces wind counter-
/// clockwise: of each complete triangle `[a, b, c]` the result holds
/// `[a, c, b]`, each index narrowed to 16 bits as the index buffer stores
/// them. Indices after the last complete triangle are dropped.
pub fn rewind_triangles(indices: &Vec<u32>) -> (r: Vec<u16>)
    ensures
        r@.len() == indices@.len() - indices@.len() % 3,
        forall|i: int| 0 <= i < r@.len() ==> #[trigger] r@[i] == (#[verifier::truncate] (spec_rewound_index(indices@, i) as u16)),
{
    let mut out: Vec<u16> = Vec::new();
    let mut base: usize = 0;
    while indices.len() - base >= 3
        invariant
            base % 3 == 0,
            base <= indices@.len(),
            out@.len() == base,
            forall|i: int| 0 <= i < out@.len() ==> #[trigger] out@[i] == (#[verifier::truncate] (spec_rewound_index(indices@, i) as u16)),
        decreases indices@.len() - base,
    {
        let a = indices[base];
        let b = indices[base + 1];
        let c = indices[base + 2];
        out.push(#[verifier::truncate] (a as u16));
        out.push(#[verifier::truncate] (c as u16));
        out.push(#[verifier::truncate] (b as u16));
        proof {
            let t = base as int;
            assert((t + 1) % 3 == 1 && (t + 2) % 3 == 2);
            assert((t + 1) - (t + 1) % 3 == t && (t + 2) - (t + 2) % 3 == t);
            assert(out@[t] == (#[verifier::truncate] (spec_rewound_index(indices@, t) as u16)));
            assert(out@[t + 1] == (#[verifier::truncate] (spec_rewound_index(indices@, t + 1) as u16)));
            assert(out@[t + 2] == (#[verifier::truncate] (spec_rewound_index(indices@, t + 2) as u16)));
        }
        base = base + 3;
    }
    assert(base == indices@.len() - indices@.len() % 3) by {
        assert(indices@.len() - base < 3);
        assert(base % 3 == 0);
    }
    out
}

/// Rewinding is its own inverse: rewinding a rewound index list gives back
/// the triangles it started from.
pub proof fn lemma_rewind_involution(indices: Seq<u32>, i: int)
    requires
        0 <= i < indices.len() - indices.len() % 3,
    ensures
        0 <= i - i % 3 + 2 < indices.len(),
        spec_rewound_index(Seq::new((indices.len() - indices.len() % 3) as nat, |j: int| spec_rewound_index(indices, j)), i) == indices[i],
{
    let rewound = Seq::new((indices.len() - indices.len() % 3) as nat, |j: int| spec_rewound_index(indices, j));
    let t = i - i % 3;
    assert(t % 3 == 0);
    assert((t + 1) % 3 == 1);
    assert((t + 2) % 3 == 2);
    assert(t + 2 < indices.len() - indices.len() % 3);
    assert(rewound[t] == indices[t]);
    assert(rewound[t + 1] == indices[t + 2]);
    assert(rewound[t + 2] == indices[t + 1]);
}

} // verus!
