//! The selection rules of context construction: which adapter, which surface
//! format, which presentation and alpha mode.
//!
//! Every rule picks by position in a list that the GPU library reports, so the
//! order of that list decides and nothing else does.

use vstd::prelude::*;
use crate::gpu::{format_is_srgb, texture_format_is_srgb};
use crate::error::PiksellError;
use crate::util::PiksellTextureFormat;

verus! {

/// Whether `i` is the first position at which `flags` holds `true`.
pub open spec fn is_first_true(flags: Seq<bool>, i: int) -> bool {
    &&& 0 <= i < flags.len()
    &&& flags[i]
    &&& forall|j: int| 0 <= j < i ==> !flags[j]
}

/// The first position at which `flags` holds `true`, if it holds one.
pub open spec fn first_true(flags: Seq<bool>) -> Option<int> {
    if exists|i: int| is_first_true(flags, i) {
        Some(choose|i: int| is_first_true(flags, i))
    } else {
        None
    }
}

/// A position that holds `true` and has only `false` before it is the one
/// that `first_true` names.
pub proof fn lemma_first_true_is(flags: Seq<bool>, i: int)
    requires
        is_first_true(flags, i),
    ensures
        first_true(flags) == Some(i),
{
    // Of two first positions the later one would have `true` before it.
    let k = choose|k: int| is_first_true(flags, k);
    assert(is_first_true(flags, k));
    assert(k == i);
}

/// Where any position up to `bound` holds `true`, there is a first one.
proof fn lemma_first_true_below(flags: Seq<bool>, bound: int)
    requires
        0 <= bound < flags.len(),
        flags[bound],
    ensures
        exists|i: int| is_first_true(flags, i),
    decreases bound,
{
    if exists|j: int| 0 <= j < bound && flags[j] {
        let j = choose|j: int| 0 <= j < bound && flags[j];
        lemma_first_true_below(flags, j);
    } else {
        assert(is_first_true(flags, bound));
    }
}

/// `first_true` finds a position exactly when some position holds `true`, and
/// the position it finds is the first such.
pub proof fn lemma_first_true(flags: Seq<bool>)
    ensures
        first_true(flags) matches Some(i) ==> is_first_true(flags, i),
        first_true(flags) is None <==> forall|j: int| 0 <= j < flags.len() ==> !flags[j],
{
    if exists|i: int| is_first_true(flags, i) {
        let i = choose|i: int| is_first_true(flags, i);
        assert(flags[i]);
    } else {
        assert forall|j: int| 0 <= j < flags.len() implies !flags[j] by {
            if flags[j] {
                lemma_first_true_below(flags, j);
            }
        }
    }
}

/// The first position at which `flags` holds `true`.
pub fn find_first_true(flags: &Vec<bool>) -> (found: Option<usize>)
    ensures
        match found {
            Some(i) => first_true(flags@) == Some(i as int),
            None => first_true(flags@) is None,
        },
{
    let mut i: usize = 0;
    while i < flags.len()
        invariant
            i <= flags.len(),
            forall|j: int| 0 <= j < i ==> !flags@[j],
        decreases flags.len() - i,
    {
        if flags[i] {
            proof {
                lemma_first_true_is(flags@, i as int);
            }
            return Some(i);
        }
        i += 1;
    }
    proof {
        lemma_first_true(flags@);
    }
    None
}

/// For each enumerated adapter, whether it reported the surface as supported.
pub open spec fn support_flags<A>(candidates: Seq<(A, bool)>) -> Seq<bool> {
    candidates.map_values(|candidate: (A, bool)| candidate.1)
}

/// The adapter that construction goes on with: the one that the request
/// granted, else the first enumerated one that supports the surface. The
/// power preference plays no part in the second choice.
pub open spec fn selected_adapter<A>(primary: Option<A>, candidates: Seq<(A, bool)>) -> Result<
    A,
    PiksellError,
> {
    match primary {
        Some(adapter) => Ok(adapter),
        None => match first_true(support_flags(candidates)) {
            Some(i) => Ok(candidates[i].0),
            None => Err(PiksellError::NoAdapter),
        },
    }
}

/// Chooses the adapter. `primary` is what the adapter request gave;
/// `candidates` are the enumerated adapters in the order of enumeration, each
/// with its answer to whether it can present to the surface.
pub fn select_adapter<A>(primary: Option<A>, candidates: Vec<(A, bool)>) -> (chosen: Result<
    A,
    PiksellError,
>)
    ensures
        chosen == selected_adapter(primary, candidates@),
{
    match primary {
        Some(adapter) => Ok(adapter),
        None => {
            let ghost offered = candidates@;
            let ghost flags = support_flags(offered);
            let mut remaining = candidates;
            let mut i: usize = 0;
            while i < remaining.len()
                invariant
                    i <= remaining.len(),
                    primary is None,
                    offered == candidates@,
                    remaining@ == offered,
                    flags == support_flags(offered),
                    forall|j: int| 0 <= j < i ==> !flags[j],
                decreases remaining.len() - i,
            {
                if remaining[i].1 {
                    proof {
                        lemma_first_true_is(flags, i as int);
                    }
                    let (adapter, _) = remaining.swap_remove(i);
                    return Ok(adapter);
                }
                i += 1;
            }
            proof {
                lemma_first_true(flags);
            }
            Err(PiksellError::NoAdapter)
        },
    }
}

/// Where the request granted no adapter and exactly one enumerated adapter
/// supports the surface, that adapter is selected.
pub proof fn lemma_adapter_fallback<A>(candidates: Seq<(A, bool)>, only: int)
    requires
        0 <= only < candidates.len(),
        candidates[only].1,
        forall|j: int| 0 <= j < candidates.len() && j != only ==> !candidates[j].1,
    ensures
        selected_adapter(None, candidates) == Ok::<A, PiksellError>(candidates[only].0),
{
    lemma_first_true_is(support_flags(candidates), only);
}

/// Where the request granted no adapter and no enumerated adapter supports
/// the surface, selection fails with `NoAdapter`. That is so in particular
/// where nothing is enumerated.
pub proof fn lemma_no_adapter<A>(candidates: Seq<(A, bool)>)
    requires
        forall|j: int| 0 <= j < candidates.len() ==> !candidates[j].1,
    ensures
        selected_adapter(None, candidates) == Err::<A, PiksellError>(PiksellError::NoAdapter),
{
    lemma_first_true(support_flags(candidates));
}

/// The adapter that the fallback selects supports the surface, and no adapter
/// that was enumerated before it does.
pub proof fn lemma_fallback_is_first_supported<A>(candidates: Seq<(A, bool)>)
    ensures
        selected_adapter(None, candidates) matches Ok(adapter) ==> exists|i: int|
            {
                &&& 0 <= i < candidates.len()
                &&& #[trigger] candidates[i] == (adapter, true)
                &&& forall|j: int| 0 <= j < i ==> !candidates[j].1
            },
{
    let flags = support_flags(candidates);
    lemma_first_true(flags);
    if first_true(flags) is Some {
        let i = first_true(flags)->Some_0;
        assert(candidates[i] == (candidates[i].0, flags[i]));
        assert forall|j: int| 0 <= j < i implies !candidates[j].1 by {
            assert(!flags[j]);
        }
    }
}

/// An adapter that the request granted is selected whatever was enumerated.
pub proof fn lemma_granted_adapter_wins<A>(adapter: A, candidates: Seq<(A, bool)>)
    ensures
        selected_adapter(Some(adapter), candidates) == Ok::<A, PiksellError>(adapter),
{
}

/// For each format, whether it is an sRGB format.
pub open spec fn srgb_flags(formats: Seq<PiksellTextureFormat>) -> Seq<bool> {
    formats.map_values(|format: PiksellTextureFormat| format_is_srgb(format))
}

/// The position of the preferred format among formats of which `srgb` says
/// which are sRGB: the first sRGB one, else the first of all.
pub open spec fn preferred_index(srgb: Seq<bool>) -> Option<int> {
    if srgb.len() == 0 {
        None
    } else {
        match first_true(srgb) {
            Some(i) => Some(i),
            None => Some(0),
        }
    }
}

/// The preferred format among `formats`: the first sRGB one, else the first
/// of all. None where nothing is advertised.
pub open spec fn preferred_format(formats: Seq<PiksellTextureFormat>) -> Option<
    PiksellTextureFormat,
> {
    match preferred_index(srgb_flags(formats)) {
        Some(i) => Some(formats[i]),
        None => None,
    }
}

/// The position of the preferred format, given for each advertised format
/// whether it is sRGB.
pub fn preferred_format_index(srgb: &Vec<bool>) -> (index: Option<usize>)
    ensures
        match index {
            Some(i) => preferred_index(srgb@) == Some(i as int),
            None => preferred_index(srgb@) is None,
        },
{
    if srgb.len() == 0 {
        None
    } else {
        match find_first_true(srgb) {
            Some(i) => Some(i),
            None => Some(0),
        }
    }
}

/// Asks of each format whether it is sRGB.
pub fn format_srgb_flags(formats: &Vec<PiksellTextureFormat>) -> (flags: Vec<bool>)
    ensures
        flags@ == srgb_flags(formats@),
{
    let mut flags: Vec<bool> = Vec::new();
    let mut i: usize = 0;
    while i < formats.len()
        invariant
            i <= formats.len(),
            flags@ == srgb_flags(formats@.take(i as int)),
        decreases formats.len() - i,
    {
        let srgb = texture_format_is_srgb(&formats[i]);
        flags.push(srgb);
        i += 1;
        assert(flags@ =~= srgb_flags(formats@.take(i as int)));
    }
    assert(formats@.take(i as int) =~= formats@);
    flags
}

/// Chooses the surface format from the advertised ones, in the order in which
/// the adapter reported them.
pub fn select_surface_format(formats: &Vec<PiksellTextureFormat>) -> (chosen: Option<
    PiksellTextureFormat,
>)
    ensures
        chosen == preferred_format(formats@),
{
    let flags = format_srgb_flags(formats);
    match preferred_format_index(&flags) {
        Some(i) => {
            proof {
                lemma_first_true(flags@);
            }
            Some(formats[i])
        },
        None => None,
    }
}

/// Where an sRGB format is advertised, the preferred format is an advertised
/// sRGB format; where formats are advertised and none is sRGB, it is the
/// first of them. There is a preferred format exactly where a format is
/// advertised.
pub proof fn lemma_srgb_preferred(formats: Seq<PiksellTextureFormat>)
    ensures
        preferred_format(formats) is Some <==> formats.len() > 0,
        (exists|i: int| 0 <= i < formats.len() && format_is_srgb(formats[i])) ==> {
            &&& preferred_format(formats) matches Some(chosen)
            &&& format_is_srgb(chosen)
            &&& formats.contains(chosen)
        },
        formats.len() > 0 && (forall|i: int| 0 <= i < formats.len() ==> !format_is_srgb(formats[i]))
            ==> preferred_format(formats) == Some(formats[0]),
{
    let flags = srgb_flags(formats);
    lemma_first_true(flags);
    if exists|i: int| 0 <= i < formats.len() && format_is_srgb(formats[i]) {
        let i = choose|i: int| 0 <= i < formats.len() && format_is_srgb(formats[i]);
        assert(flags[i]);
        let first = first_true(flags)->Some_0;
        assert(formats.contains(formats[first]));
    } else if formats.len() > 0 {
        assert forall|j: int| 0 <= j < flags.len() implies !flags[j] by {
            assert(!format_is_srgb(formats[j]));
        }
    }
}

/// The mode that a surface is configured with: the requested one, else the
/// first advertised one. None where nothing was requested and nothing is
/// advertised.
pub open spec fn requested_or_first<T>(requested: Option<T>, advertised: Seq<T>) -> Option<T> {
    match requested {
        Some(mode) => Some(mode),
        None => if advertised.len() > 0 {
            Some(advertised[0])
        } else {
            None
        },
    }
}

/// Chooses a presentation or alpha mode. A requested mode is taken as it is,
/// advertised or not.
pub fn select_mode<T: Copy>(requested: Option<T>, advertised: &Vec<T>) -> (chosen: Option<T>)
    ensures
        chosen == requested_or_first(requested, advertised@),
{
    match requested {
        Some(mode) => Some(mode),
        None => if advertised.len() > 0 {
            Some(advertised[0])
        } else {
            None
        },
    }
}

} // verus!
