//! Physical-device selection.
//!
//! Candidates are examined in enumeration order. A candidate is eligible
//! when it offers every required device extension, at least one surface
//! format, at least one present mode, and queue families that cover both
//! graphics and presentation (possibly the same family). The last eligible
//! candidate wins, except that the search stops at the first eligible
//! discrete GPU, which is the preferred outcome. There is no scoring beyond
//! that short-circuit.

use vstd::prelude::*;

use crate::capability::all_present;
use crate::capability::contains_all;

verus! {

/// The kind of hardware a candidate device reports itself as.
#[derive(Clone, Copy, Debug, PartialEq, Eq, Structural)]
pub enum DeviceKind {
    Discrete,
    Integrated,
    Virtual,
    Cpu,
    Other,
}

/// One queue family of a candidate device: how many queues it can provide
/// and which operation classes it supports. Its index is its position in
/// the candidate's queue family list.
#[derive(Clone, Copy, Debug, PartialEq, Eq, Structural)]
pub struct QueueFamily {
    pub queue_count: u32,
    pub supports_graphics: bool,
    pub supports_present: bool,
}

/// A color format together with its color space, as the surface reports it.
#[derive(Clone, Copy, Debug, PartialEq, Eq, Structural)]
pub struct SurfaceFormat {
    pub format: u32,
    pub color_space: u32,
}

/// Everything the selector reads about one candidate physical device:
/// its available device extensions, the surface formats and present modes
/// enumerated for it, its queue families, and its hardware kind.
#[derive(Clone, Debug)]
pub struct DeviceCandidate {
    pub extensions: Vec<Vec<u8>>,
    pub surface_formats: Vec<SurfaceFormat>,
    pub present_modes: Vec<u32>,
    pub queue_families: Vec<QueueFamily>,
    pub kind: DeviceKind,
}

/// No candidate device satisfies the graphics, presentation and swapchain
/// constraints.
#[derive(Clone, Copy, Debug, PartialEq, Eq, Structural)]
pub struct NoSuitableDevice;

/// The outcome of a successful selection pass: the chosen candidate's
/// position in the candidate list, its lowest graphics-capable and lowest
/// presentation-capable queue family indices, the deduplicated list of the
/// distinct family indices needed, and the formats and present modes
/// enumerated for it.
#[derive(Clone, Debug)]
pub struct SelectedDevice {
    pub device_index: usize,
    pub graphics_family: u32,
    pub present_family: u32,
    pub queue_family_indices: Vec<u32>,
    pub surface_formats: Vec<SurfaceFormat>,
    pub present_modes: Vec<u32>,
}

/// A family that can serve graphics work.
pub open spec fn graphics_capable(f: QueueFamily) -> bool {
    f.queue_count > 0 && f.supports_graphics
}

/// A family that can serve presentation.
pub open spec fn present_capable(f: QueueFamily) -> bool {
    f.queue_count > 0 && f.supports_present
}

/// Some family of the candidate can serve graphics work.
pub open spec fn has_graphics_family(c: DeviceCandidate) -> bool {
    exists|i: int|
        0 <= i < c.queue_families@.len() && graphics_capable(#[trigger] c.queue_families@[i])
}

/// Some family of the candidate can serve presentation.
pub open spec fn has_present_family(c: DeviceCandidate) -> bool {
    exists|i: int|
        0 <= i < c.queue_families@.len() && present_capable(#[trigger] c.queue_families@[i])
}

/// A candidate the selector may return: required extensions all present,
/// at least one surface format and one present mode, and queue families
/// covering both graphics and presentation.
pub open spec fn eligible(c: DeviceCandidate, req: Seq<Seq<u8>>) -> bool {
    &&& all_present(req, c.extensions.deep_view())
    &&& c.surface_formats@.len() > 0
    &&& c.present_modes@.len() > 0
    &&& has_graphics_family(c)
    &&& has_present_family(c)
}

/// A candidate list the selector can work on: every family index fits the
/// index width the backend uses.
pub open spec fn candidate_wf(c: DeviceCandidate) -> bool {
    c.queue_families@.len() <= u32::MAX
}

/// `g` is the lowest index of a graphics-capable family of `c`.
pub open spec fn first_graphics_index(c: DeviceCandidate, g: int) -> bool {
    &&& 0 <= g < c.queue_families@.len()
    &&& graphics_capable(c.queue_families@[g])
    &&& forall|k: int| 0 <= k < g ==> !graphics_capable(#[trigger] c.queue_families@[k])
}

/// `p` is the lowest index of a presentation-capable family of `c`.
pub open spec fn first_present_index(c: DeviceCandidate, p: int) -> bool {
    &&& 0 <= p < c.queue_families@.len()
    &&& present_capable(c.queue_families@[p])
    &&& forall|k: int| 0 <= k < p ==> !present_capable(#[trigger] c.queue_families@[k])
}

/// The index the scan settles on from position `i` onward, with `best`
/// holding the index of the last eligible candidate seen so far: each
/// eligible candidate overwrites `best`, and the first eligible discrete
/// GPU ends the scan at once.
pub open spec fn scan(cands: Seq<DeviceCandidate>, req: Seq<Seq<u8>>, i: int, best: Option<
    int,
>) -> Option<int>
    decreases cands.len() - i,
{
    if i < 0 || i >= cands.len() {
        best
    } else if eligible(cands[i], req) {
        if cands[i].kind is Discrete {
            Some(i)
        } else {
            scan(cands, req, i + 1, Some(i))
        }
    } else {
        scan(cands, req, i + 1, best)
    }
}

/// The index of the candidate the whole selection pass settles on.
pub open spec fn selected_index(cands: Seq<DeviceCandidate>, req: Seq<Seq<u8>>) -> Option<int> {
    scan(cands, req, 0, None)
}

/// The selection's fields agree with the candidate it points at.
pub open spec fn selection_matches(cands: Seq<DeviceCandidate>, sel: SelectedDevice) -> bool {
    &&& sel.device_index < cands.len()
    &&& first_graphics_index(cands[sel.device_index as int], sel.graphics_family as int)
    &&& first_present_index(cands[sel.device_index as int], sel.present_family as int)
    &&& sel.queue_family_indices@ == if sel.graphics_family == sel.present_family {
        seq![sel.graphics_family]
    } else {
        seq![sel.graphics_family, sel.present_family]
    }
    &&& sel.surface_formats@ == cands[sel.device_index as int].surface_formats@
    &&& sel.present_modes@ == cands[sel.device_index as int].present_modes@
}

spec fn best_index(best: Option<SelectedDevice>) -> Option<int> {
    match best {
        None => None,
        Some(sel) => Some(sel.device_index as int),
    }
}

proof fn lemma_scan_none_iff(cands: Seq<DeviceCandidate>, req: Seq<Seq<u8>>, i: int, best: Option<
    int,
>)
    requires
        0 <= i <= cands.len(),
    ensures
        scan(cands, req, i, best) is None <==> (best is None && forall|k: int|
            i <= k < cands.len() ==> !eligible(#[trigger] cands[k], req)),
    decreases cands.len() - i,
{
    if i < cands.len() {
        if eligible(cands[i], req) {
            if cands[i].kind is Discrete {
            } else {
                lemma_scan_none_iff(cands, req, i + 1, Some(i));
            }
            assert(eligible(cands[i], req));
        } else {
            lemma_scan_none_iff(cands, req, i + 1, best);
        }
    }
}

proof fn lemma_scan_some_eligible(
    cands: Seq<DeviceCandidate>,
    req: Seq<Seq<u8>>,
    i: int,
    best: Option<int>,
)
    requires
        0 <= i <= cands.len(),
        best matches Some(b) ==> 0 <= b < cands.len() && eligible(cands[b], req),
    ensures
        scan(cands, req, i, best) matches Some(j) ==> 0 <= j < cands.len() && eligible(
            cands[j],
            req,
        ),
    decreases cands.len() - i,
{
    if i < cands.len() {
        if eligible(cands[i], req) {
            if cands[i].kind is Discrete {
            } else {
                lemma_scan_some_eligible(cands, req, i + 1, Some(i));
            }
        } else {
            lemma_scan_some_eligible(cands, req, i + 1, best);
        }
    }
}

proof fn lemma_scan_discrete(cands: Seq<DeviceCandidate>, req: Seq<Seq<u8>>, i: int, best: Option<
    int,
>)
    requires
        0 <= i <= cands.len(),
        exists|k: int|
            i <= k < cands.len() && eligible(#[trigger] cands[k], req) && cands[k].kind
                is Discrete,
    ensures
        scan(cands, req, i, best) matches Some(j) && 0 <= j < cands.len() && eligible(
            cands[j],
            req,
        ) && cands[j].kind is Discrete,
    decreases cands.len() - i,
{
    let k0 = choose|k: int|
        i <= k < cands.len() && eligible(#[trigger] cands[k], req) && cands[k].kind is Discrete;
    if eligible(cands[i], req) && cands[i].kind is Discrete {
    } else {
        assert(k0 != i);
        assert(i + 1 <= k0 < cands.len() && eligible(cands[k0], req) && cands[k0].kind
            is Discrete);
        if eligible(cands[i], req) {
            lemma_scan_discrete(cands, req, i + 1, Some(i));
        } else {
            lemma_scan_discrete(cands, req, i + 1, best);
        }
    }
}

/// The selector only ever settles on an eligible candidate: one with the
/// required extensions, at least one surface format, at least one present
/// mode, and queue families covering graphics and presentation.
pub proof fn lemma_selector_eligibility(cands: Seq<DeviceCandidate>, req: Seq<Seq<u8>>)
    ensures
        selected_index(cands, req) matches Some(j) ==> 0 <= j < cands.len() && eligible(
            cands[j],
            req,
        ),
{
    lemma_scan_some_eligible(cands, req, 0, None);
}

/// The selection pass comes up empty exactly when no candidate in the list
/// is eligible.
pub proof fn lemma_selector_completeness(cands: Seq<DeviceCandidate>, req: Seq<Seq<u8>>)
    ensures
        selected_index(cands, req) is None <==> (forall|k: int|
            0 <= k < cands.len() ==> !eligible(#[trigger] cands[k], req)),
{
    lemma_scan_none_iff(cands, req, 0, None);
}

/// Whenever some eligible discrete GPU is among the candidates, the pass
/// settles on a discrete GPU, wherever in the enumeration order it stands.
pub proof fn lemma_discrete_preferred(cands: Seq<DeviceCandidate>, req: Seq<Seq<u8>>)
    requires
        exists|k: int|
            0 <= k < cands.len() && eligible(#[trigger] cands[k], req) && cands[k].kind
                is Discrete,
    ensures
        selected_index(cands, req) matches Some(j) && 0 <= j < cands.len() && eligible(
            cands[j],
            req,
        ) && cands[j].kind is Discrete,
{
    lemma_scan_discrete(cands, req, 0, None);
}

/// The lowest-indexed queue family able to serve graphics work, if any.
pub fn first_graphics_family(families: &Vec<QueueFamily>) -> (r: Option<usize>)
    ensures
        r matches Some(g) ==> 0 <= g < families@.len() && graphics_capable(families@[g as int])
            && forall|k: int| 0 <= k < g ==> !graphics_capable(#[trigger] families@[k]),
        r is None ==> forall|k: int|
            0 <= k < families@.len() ==> !graphics_capable(#[trigger] families@[k]),
{
    let n = families.len();
    let mut j: usize = 0;
    while j < n
        invariant
            0 <= j <= n,
            n == families@.len(),
            forall|k: int| 0 <= k < j ==> !graphics_capable(#[trigger] families@[k]),
        decreases n - j,
    {
        let f = families[j];
        if f.queue_count > 0 && f.supports_graphics {
            return Some(j);
        }
        j = j + 1;
    }
    None
}

/// The lowest-indexed queue family able to serve presentation, if any.
pub fn first_present_family(families: &Vec<QueueFamily>) -> (r: Option<usize>)
    ensures
        r matches Some(p) ==> 0 <= p < families@.len() && present_capable(families@[p as int])
            && forall|k: int| 0 <= k < p ==> !present_capable(#[trigger] families@[k]),
        r is None ==> forall|k: int|
            0 <= k < families@.len() ==> !present_capable(#[trigger] families@[k]),
{
    let n = families.len();
    let mut j: usize = 0;
    while j < n
        invariant
            0 <= j <= n,
            n == families@.len(),
            forall|k: int| 0 <= k < j ==> !present_capable(#[trigger] families@[k]),
        decreases n - j,
    {
        let f = families[j];
        if f.queue_count > 0 && f.supports_present {
            return Some(j);
        }
        j = j + 1;
    }
    None
}

fn copy_vec<T: Copy>(v: &Vec<T>) -> (r: Vec<T>)
    ensures
        r@ == v@,
{
    let mut r: Vec<T> = Vec::new();
    let n = v.len();
    let mut i: usize = 0;
    while i < n
        invariant
            0 <= i <= n,
            n == v@.len(),
            r@ == v@.take(i as int),
        decreases n - i,
    {
        r.push(v[i]);
        assert(r@ =~= v@.take(i + 1));
        i = i + 1;
    }
    assert(r@ =~= v@);
    r
}

/// Walks the candidates in enumeration order and settles on the last
/// eligible one, stopping early at the first eligible discrete GPU. Fails
/// exactly when no candidate is eligible. At most one selection is retained
/// at any time.
pub fn select_device(candidates: &Vec<DeviceCandidate>, required_extensions: &Vec<Vec<u8>>) -> (r:
    Result<SelectedDevice, NoSuitableDevice>)
    requires
        forall|k: int| 0 <= k < candidates@.len() ==> candidate_wf(#[trigger] candidates@[k]),
    ensures
        r matches Ok(sel) ==> {
            &&& Some(sel.device_index as int) == selected_index(
                candidates@,
                required_extensions.deep_view(),
            )
            &&& selection_matches(candidates@, sel)
            &&& eligible(candidates@[sel.device_index as int], required_extensions.deep_view())
        },
        r is Err <==> selected_index(candidates@, required_extensions.deep_view()) is None,
        r is Err <==> (forall|k: int|
            0 <= k < candidates@.len() ==> !eligible(
                #[trigger] candidates@[k],
                required_extensions.deep_view(),
            )),
{
    let ghost reqv = required_extensions.deep_view();
    let n = candidates.len();
    let mut i: usize = 0;
    let mut best: Option<SelectedDevice> = None;
    let mut found_discrete: bool = false;
    while i < n && !found_discrete
        invariant
            0 <= i <= n,
            n == candidates@.len(),
            reqv == required_extensions.deep_view(),
            forall|k: int| 0 <= k < candidates@.len() ==> candidate_wf(#[trigger] candidates@[k]),
            best matches Some(sel) ==> selection_matches(candidates@, sel) && eligible(
                candidates@[sel.device_index as int],
                reqv,
            ),
            found_discrete ==> (best matches Some(sel) && Some(sel.device_index as int)
                == selected_index(candidates@, reqv) && candidates@[sel.device_index as int].kind
                is Discrete),
            !found_discrete ==> selected_index(candidates@, reqv) == scan(
                candidates@,
                reqv,
                i as int,
                best_index(best),
            ),
        decreases n - i,
    {
        let c = &candidates[i];
        let exts_ok = contains_all(required_extensions, &c.extensions);
        let formats_ok = c.surface_formats.len() > 0;
        let modes_ok = c.present_modes.len() > 0;
        let g_opt = first_graphics_family(&c.queue_families);
        let p_opt = first_present_family(&c.queue_families);
        if exts_ok && formats_ok && modes_ok && g_opt.is_some() && p_opt.is_some() {
            let g = g_opt.unwrap();
            let p = p_opt.unwrap();
            assert(graphics_capable(c.queue_families@[g as int]));
            assert(present_capable(c.queue_families@[p as int]));
            assert(eligible(candidates@[i as int], reqv));
            let mut qfi: Vec<u32> = Vec::new();
            qfi.push(g as u32);
            if p != g {
                qfi.push(p as u32);
            }
            let sel = SelectedDevice {
                device_index: i,
                graphics_family: g as u32,
                present_family: p as u32,
                queue_family_indices: qfi,
                surface_formats: copy_vec(&c.surface_formats),
                present_modes: copy_vec(&c.present_modes),
            };
            proof {
                if g == p {
                    assert(sel.queue_family_indices@ =~= seq![sel.graphics_family]);
                } else {
                    assert(sel.queue_family_indices@ =~= seq![
                        sel.graphics_family,
                        sel.present_family,
                    ]);
                }
                assert(selection_matches(candidates@, sel));
            }
            let is_discrete = match c.kind {
                DeviceKind::Discrete => true,
                _ => false,
            };
            proof {
                if is_discrete {
                    assert(scan(candidates@, reqv, i as int, best_index(best)) == Some(i as int));
                } else {
                    assert(scan(candidates@, reqv, i as int, best_index(best)) == scan(
                        candidates@,
                        reqv,
                        i + 1,
                        Some(i as int),
                    ));
                }
            }
            best = Some(sel);
            if is_discrete {
                found_discrete = true;
            }
        } else {
            proof {
                assert(!eligible(candidates@[i as int], reqv));
                assert(scan(candidates@, reqv, i as int, best_index(best)) == scan(
                    candidates@,
                    reqv,
                    i + 1,
                    best_index(best),
                ));
            }
        }
        i = i + 1;
    }
    proof {
        lemma_scan_none_iff(candidates@, reqv, 0, None);
        if !found_discrete {
            assert(i == n);
            assert(scan(candidates@, reqv, n as int, best_index(best)) == best_index(best));
        }
    }
    match best {
        Some(sel) => Ok(sel),
        None => Err(NoSuitableDevice),
    }
}

} // verus!
