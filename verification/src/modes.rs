//! Display-mode selection for fullscreen creation.
//!
//! When a target monitor is requested, creation searches the mode lines
//! the server reported for an exact match on the requested dimensions,
//! and otherwise falls back to the smallest mode that covers the request
//! in both dimensions.  If neither exists, creation fails.

use vstd::prelude::*;

verus! {

/// One display mode line as the mode-switching extension reports it:
/// the visible width and height of the mode.
#[derive(Clone, Copy, Debug, PartialEq, Eq, Structural)]
pub struct Mode {
    pub width: u32,
    pub height: u32,
}

/// The mode covers at least the requested dimensions.
pub open spec fn mode_fits(m: Mode, dims: (u32, u32)) -> bool {
    m.width >= dims.0 && m.height >= dims.1
}

/// The mode matches the requested dimensions exactly.
pub open spec fn mode_exact(m: Mode, dims: (u32, u32)) -> bool {
    m.width == dims.0 && m.height == dims.1
}

/// The mode's area: the measure by which the fallback mode is chosen.
pub open spec fn mode_area(m: Mode) -> int {
    m.width * m.height
}

/// The first mode of the list that matches the requested dimensions
/// exactly.
pub open spec fn first_exact(modes: Seq<Mode>, dims: (u32, u32)) -> Option<Mode>
    decreases modes.len(),
{
    if modes.len() == 0 {
        None
    } else if mode_exact(modes[0], dims) {
        Some(modes[0])
    } else {
        first_exact(modes.skip(1), dims)
    }
}

/// Among the modes that cover the requested dimensions, the one with the
/// smallest area; the earliest such mode wins ties.
pub open spec fn best_fit(modes: Seq<Mode>, dims: (u32, u32)) -> Option<Mode>
    decreases modes.len(),
{
    if modes.len() == 0 {
        None
    } else {
        let rest = best_fit(modes.skip(1), dims);
        if !mode_fits(modes[0], dims) {
            rest
        } else {
            match rest {
                Option::None => Some(modes[0]),
                Option::Some(m) => if mode_area(m) < mode_area(modes[0]) {
                    Some(m)
                } else {
                    Some(modes[0])
                },
            }
        }
    }
}

/// The mode a fullscreen window switches to: the first exact match if
/// one exists, else the smallest covering mode, else none.
pub open spec fn choose_mode_spec(modes: Seq<Mode>, dims: (u32, u32)) -> Option<Mode> {
    match first_exact(modes, dims) {
        Option::Some(m) => Some(m),
        Option::None => best_fit(modes, dims),
    }
}

proof fn lemma_first_exact_props(modes: Seq<Mode>, dims: (u32, u32))
    ensures
        match first_exact(modes, dims) {
            Option::Some(m) => modes.contains(m) && mode_exact(m, dims),
            Option::None => forall|i: int| 0 <= i < modes.len() ==> !mode_exact(modes[i], dims),
        },
    decreases modes.len(),
{
    if modes.len() > 0 && !mode_exact(modes[0], dims) {
        lemma_first_exact_props(modes.skip(1), dims);
        match first_exact(modes.skip(1), dims) {
            Option::Some(m) => {
                assert(modes.skip(1).contains(m));
                let j = choose|j: int| 0 <= j < modes.skip(1).len() && modes.skip(1)[j] == m;
                assert(modes[j + 1] == m);
            },
            Option::None => {
                assert forall|i: int| 0 <= i < modes.len() implies !mode_exact(
                    modes[i],
                    dims,
                ) by {
                    if i > 0 {
                        assert(modes.skip(1)[i - 1] == modes[i]);
                    }
                }
            },
        }
    }
}

proof fn lemma_best_fit_props(modes: Seq<Mode>, dims: (u32, u32))
    ensures
        match best_fit(modes, dims) {
            Option::Some(m) => modes.contains(m) && mode_fits(m, dims) && forall|i: int|
                0 <= i < modes.len() && mode_fits(modes[i], dims) ==> mode_area(m) <= mode_area(
                    modes[i],
                ),
            Option::None => forall|i: int| 0 <= i < modes.len() ==> !mode_fits(modes[i], dims),
        },
    decreases modes.len(),
{
    if modes.len() > 0 {
        lemma_best_fit_props(modes.skip(1), dims);
        assert forall|i: int| 1 <= i < modes.len() implies modes.skip(1)[i - 1] == modes[i] by {}
        match best_fit(modes, dims) {
            Option::Some(m) => {
                if m == modes[0] && mode_fits(modes[0], dims) {
                    assert(modes.contains(m)) by {
                        assert(modes[0] == m);
                    }
                } else {
                    assert(modes.skip(1).contains(m));
                    let j = choose|j: int|
                        0 <= j < modes.skip(1).len() && modes.skip(1)[j] == m;
                    assert(modes[j + 1] == m);
                }
            },
            Option::None => {},
        }
    }
}

/// Search the reported mode lines for the requested dimensions: the
/// first exact match, else the smallest mode that covers the request in
/// both dimensions, else nothing.
pub fn choose_mode(modes: &Vec<Mode>, dims: (u32, u32)) -> (r: Option<Mode>)
    ensures
        r == choose_mode_spec(modes@, dims),
        match r {
            Option::Some(m) => modes@.contains(m) && mode_fits(m, dims),
            Option::None => forall|i: int| 0 <= i < modes@.len() ==> !mode_fits(modes@[i], dims),
        },
{
    proof {
        lemma_first_exact_props(modes@, dims);
        lemma_best_fit_props(modes@, dims);
        if choose_mode_spec(modes@, dims) is Some {
            let m = choose_mode_spec(modes@, dims)->0;
            if first_exact(modes@, dims) is Some {
                assert(mode_fits(m, dims));
            }
        }
    }
    match find_exact(modes, dims) {
        Option::Some(m) => Some(m),
        Option::None => find_best_fit(modes, dims),
    }
}

fn find_exact(modes: &Vec<Mode>, dims: (u32, u32)) -> (r: Option<Mode>)
    ensures
        r == first_exact(modes@, dims),
{
    let n = modes.len();
    let mut i: usize = n;
    let mut r: Option<Mode> = None;
    while i > 0
        invariant
            i <= n,
            n == modes@.len(),
            r == first_exact(modes@.skip(i as int), dims),
        decreases i,
    {
        i = i - 1;
        let m = modes[i];
        proof {
            assert(modes@.skip(i as int)[0] == modes@[i as int]);
            assert(modes@.skip(i as int).skip(1) =~= modes@.skip(i as int + 1));
        }
        if m.width == dims.0 && m.height == dims.1 {
            // an earlier exact match supersedes one found further on
            r = Some(m);
        }
        proof {
            if !mode_exact(modes@[i as int], dims) {
                assert(first_exact(modes@.skip(i as int), dims) == first_exact(
                    modes@.skip(i as int + 1),
                    dims,
                ));
            }
        }
    }
    proof {
        assert(modes@.skip(0) =~= modes@);
    }
    r
}

fn mode_area_exec(m: Mode) -> (r: u64)
    ensures
        r == mode_area(m),
{
    proof {
        assert((m.width as int) * (m.height as int) <= 0xffff_ffff * 0xffff_ffff)
            by (nonlinear_arith)
            requires
                m.width <= 0xffff_ffffu32,
                m.height <= 0xffff_ffffu32,
        ;
    }
    (m.width as u64) * (m.height as u64)
}

fn find_best_fit(modes: &Vec<Mode>, dims: (u32, u32)) -> (r: Option<Mode>)
    ensures
        r == best_fit(modes@, dims),
{
    let n = modes.len();
    let mut i: usize = n;
    let mut r: Option<Mode> = None;
    while i > 0
        invariant
            i <= n,
            n == modes@.len(),
            r == best_fit(modes@.skip(i as int), dims),
        decreases i,
    {
        i = i - 1;
        let m = modes[i];
        proof {
            assert(modes@.skip(i as int)[0] == modes@[i as int]);
            assert(modes@.skip(i as int).skip(1) =~= modes@.skip(i as int + 1));
        }
        if m.width >= dims.0 && m.height >= dims.1 {
            match r {
                Option::Some(best) => {
                    if mode_area_exec(best) < mode_area_exec(m) {
                        // the later mode stays the best fit
                    } else {
                        r = Some(m);
                    }
                },
                Option::None => {
                    r = Some(m);
                },
            }
        }
    }
    proof {
        assert(modes@.skip(0) =~= modes@);
    }
    r
}

} // verus!
