//! The run-time meaning of the generated dispatch: which level a value of the
//! annotated enumeration is reported at, given the two groups of valid
//! variants. The generated `match` is a direct transcription of this
//! function, so the laws about classification are stated over it.

use vstd::prelude::*;

use crate::classify::{Marked, MarkedView, WithInnError, WithInnErrorView};
use crate::level::{spec_reported, Level};

verus! {

/// What the generated dispatch returns when run on a value of variant `name`:
/// the reported severity of the first matching leveled arm, or — for a
/// delegating arm — `inner`, whatever the wrapped value's own `error_level()`
/// returns. An outer `None` means no arm covers the variant, in which case
/// the generated `match` would not even compile.
pub open spec fn spec_dispatch(
    marked: Seq<MarkedView>,
    w_inner: Seq<WithInnErrorView>,
    name: Seq<char>,
    inner: Option<Level>,
) -> Option<Option<Level>>
    decreases marked.len() + w_inner.len(),
{
    if marked.len() > 0 {
        if marked[0].variant_id == name {
            Some(spec_reported(marked[0].level))
        } else {
            spec_dispatch(marked.drop_first(), w_inner, name, inner)
        }
    } else if w_inner.len() > 0 {
        if w_inner[0].variant_id == name {
            Some(inner)
        } else {
            spec_dispatch(marked, w_inner.drop_first(), name, inner)
        }
    } else {
        None
    }
}

/// Evaluates the generated dispatch on a value of variant `name`, where
/// `inner` is what the wrapped value's own `error_level()` returns when the
/// variant delegates.
pub fn error_level_of(
    marked: &Vec<Marked>,
    w_inner: &Vec<WithInnError>,
    name: &String,
    inner: Option<Level>,
) -> (r: Option<Option<Level>>)
    ensures
        r == spec_dispatch(marked.deep_view(), w_inner.deep_view(), name@, inner),
{
    let ghost ms: Seq<MarkedView> = marked.deep_view();
    let ghost ws: Seq<WithInnErrorView> = w_inner.deep_view();
    proof {
        assert(ms.skip(0) =~= ms);
    }
    let n: usize = marked.len();
    let mut i: usize = 0;
    while i < n
        invariant
            n == marked.len(),
            i <= n,
            ms == marked.deep_view(),
            ws == w_inner.deep_view(),
            spec_dispatch(ms, ws, name@, inner) == spec_dispatch(
                ms.skip(i as int),
                ws,
                name@,
                inner,
            ),
        decreases n - i,
    {
        let m = &marked[i];
        proof {
            assert(ms.skip(i as int)[0] == ms[i as int]);
        }
        if m.variant_id == *name {
            return Some(m.level.reported());
        }
        proof {
            assert(ms.skip(i as int).drop_first() =~= ms.skip(i as int + 1));
        }
        i = i + 1;
    }
    proof {
        assert(ms.skip(n as int) =~= Seq::<MarkedView>::empty());
        assert(ws.skip(0) =~= ws);
    }
    let k: usize = w_inner.len();
    let mut j: usize = 0;
    while j < k
        invariant
            k == w_inner.len(),
            j <= k,
            ms == marked.deep_view(),
            ws == w_inner.deep_view(),
            spec_dispatch(ms, ws, name@, inner) == spec_dispatch(
                Seq::<MarkedView>::empty(),
                ws.skip(j as int),
                name@,
                inner,
            ),
        decreases k - j,
    {
        let w = &w_inner[j];
        proof {
            assert(ws.skip(j as int)[0] == ws[j as int]);
        }
        if w.variant_id == *name {
            return Some(inner);
        }
        proof {
            assert(ws.skip(j as int).drop_first() =~= ws.skip(j as int + 1));
        }
        j = j + 1;
    }
    proof {
        assert(ws.skip(k as int) =~= Seq::<WithInnErrorView>::empty());
    }
    None
}

} // verus!
