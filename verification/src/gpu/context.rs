//! Which GPU is used, and what it is used for.

use vstd::prelude::*;

use crate::gpu::painter::AlphaSource;

verus! {

#[derive(Clone, Copy, Debug, PartialEq, Eq, Structural)]
pub enum DeviceType {
    Other,
    IntegratedGpu,
    DiscreteGpu,
    VirtualGpu,
    Cpu,
}

/// An adapter that the instance offers, as far as choosing one goes.
#[derive(Clone, Copy, Debug, PartialEq, Eq, Structural)]
pub struct AdapterEntry {
    pub device_type: DeviceType,
    /// It is the adapter that shared frames are produced on.
    pub matches_producer: bool,
}

/// An adapter that is a GPU.
pub open spec fn hardware(t: DeviceType) -> bool {
    !(t is Cpu || t is Other)
}

pub fn is_hardware(t: DeviceType) -> (r: bool)
    ensures
        r == hardware(t),
{
    match t {
        DeviceType::Cpu | DeviceType::Other => false,
        _ => true,
    }
}

/// The adapters among which one is picked, in the order they were offered.
pub fn enumerated(offered: &Vec<AdapterEntry>) -> (r: Vec<AdapterEntry>)
    ensures
        r@ == offered@.filter(|a: AdapterEntry| hardware(a.device_type)),
{
    let ghost keep = |a: AdapterEntry| hardware(a.device_type);
    let mut r: Vec<AdapterEntry> = Vec::new();
    let mut i: usize = 0;
    proof {
        reveal(Seq::filter);
        assert(offered@.take(0) =~= seq![]);
    }
    while i < offered.len()
        invariant
            i <= offered@.len(),
            keep == (|a: AdapterEntry| hardware(a.device_type)),
            r@ == offered@.take(i as int).filter(keep),
        decreases offered@.len() - i,
    {
        proof {
            reveal(Seq::filter);
            assert(offered@.take(i + 1).drop_last() =~= offered@.take(i as int));
        }
        if is_hardware(offered[i].device_type) {
            r.push(offered[i]);
        }
        i += 1;
    }
    assert(offered@.take(i as int) =~= offered@);
    r
}

/// Whether painting on a GPU is possible at all.
pub fn any_adapter(adapters: &Vec<AdapterEntry>) -> (r: bool)
    ensures
        r == (adapters@.len() > 0),
{
    adapters.len() > 0
}

/// How good a kind of device is.
pub open spec fn device_rank(t: DeviceType) -> int {
    match t {
        DeviceType::DiscreteGpu => 3,
        DeviceType::IntegratedGpu => 2,
        DeviceType::VirtualGpu => 1,
        _ => 0,
    }
}

fn rank(t: DeviceType) -> (r: u8)
    ensures
        r == device_rank(t),
{
    match t {
        DeviceType::DiscreteGpu => 3,
        DeviceType::IntegratedGpu => 2,
        DeviceType::VirtualGpu => 1,
        _ => 0,
    }
}

/// `i` is the first adapter that shared frames are produced on.
pub open spec fn first_match(adapters: Seq<AdapterEntry>, i: int) -> bool {
    &&& 0 <= i < adapters.len()
    &&& adapters[i].matches_producer
    &&& forall|j: int| 0 <= j < i ==> !(#[trigger] adapters[j]).matches_producer
}

/// `i` is the last of the best adapters.
pub open spec fn last_best(adapters: Seq<AdapterEntry>, i: int) -> bool {
    &&& 0 <= i < adapters.len()
    &&& forall|j: int|
        0 <= j < adapters.len() ==> device_rank((#[trigger] adapters[j]).device_type)
            <= device_rank(adapters[i].device_type)
    &&& forall|j: int|
        i < j < adapters.len() ==> device_rank((#[trigger] adapters[j]).device_type)
            < device_rank(adapters[i].device_type)
}

pub open spec fn some_match(adapters: Seq<AdapterEntry>) -> bool {
    exists|j: int| 0 <= j < adapters.len() && (#[trigger] adapters[j]).matches_producer
}

/// The adapter to use, and whether shared frames can reach it. Where frames are
/// produced on an adapter that is there, that one is used; else the best one,
/// which shared frames reach only where nobody produces any elsewhere.
pub fn pick_adapter(adapters: &Vec<AdapterEntry>, producer_known: bool) -> (r: Option<
    (usize, bool),
>)
    ensures
        r is None <==> adapters@.len() == 0,
        r matches Some((i, matched)) ==> if producer_known && some_match(adapters@) {
            first_match(adapters@, i as int) && matched
        } else {
            last_best(adapters@, i as int) && matched == !producer_known
        },
{
    if producer_known {
        let mut i: usize = 0;
        while i < adapters.len()
            invariant
                i <= adapters@.len(),
                producer_known,
                forall|j: int| 0 <= j < i ==> !(#[trigger] adapters@[j]).matches_producer,
            decreases adapters@.len() - i,
        {
            if adapters[i].matches_producer {
                assert(adapters@[i as int].matches_producer);
                return Some((i, true));
            }
            i += 1;
        }
        assert(!some_match(adapters@));
    }
    if adapters.len() == 0 {
        return None;
    }
    let mut best: usize = 0;
    let mut i: usize = 1;
    while i < adapters.len()
        invariant
            1 <= i <= adapters@.len(),
            best < i,
            forall|j: int|
                0 <= j < i ==> device_rank((#[trigger] adapters@[j]).device_type) <= device_rank(
                    adapters@[best as int].device_type,
                ),
            forall|j: int|
                best < j < i ==> device_rank((#[trigger] adapters@[j]).device_type) < device_rank(
                    adapters@[best as int].device_type,
                ),
        decreases adapters@.len() - i,
    {
        if rank(adapters[i].device_type) >= rank(adapters[best].device_type) {
            best = i;
        }
        i += 1;
    }
    Some((best, !producer_known))
}

/// Shared frames can be taken where the device can import them and is the one
/// they are produced on.
pub fn can_import_shared(import_capable: bool, device_matched: bool) -> (r: bool)
    ensures
        r == (import_capable && device_matched),
{
    import_capable && device_matched
}

/// The entry point of the fragment shader that paints on a surface, by how the
/// window system reads its alpha.
pub fn pipeline(alpha: AlphaSource) -> (r: &'static str)
    ensures
        r@ == (match alpha {
            AlphaSource::Premultiplied => "fs_main"@,
            AlphaSource::Straight => "fs_main_premultiplied"@,
        }),
{
    match alpha {
        AlphaSource::Premultiplied => "fs_main",
        AlphaSource::Straight => "fs_main_premultiplied",
    }
}

/// GPUs are those that are neither a processor nor unknown, and a GPU of its own
/// is better than one in the processor, which is better than a virtual one.
pub proof fn devices_are_ranked(t: DeviceType)
    ensures
        hardware(t) <==> t is DiscreteGpu || t is IntegratedGpu || t is VirtualGpu,
        device_rank(DeviceType::DiscreteGpu) > device_rank(DeviceType::IntegratedGpu),
        device_rank(DeviceType::IntegratedGpu) > device_rank(DeviceType::VirtualGpu),
        hardware(t) ==> device_rank(t) > device_rank(DeviceType::Cpu) && device_rank(t)
            > device_rank(DeviceType::Other),
        device_rank(DeviceType::Cpu) == device_rank(DeviceType::Other),
{
}

/// The adapter that is picked is the one that frames are produced on, where it
/// is offered; else no better kind is offered, and of its own kind it is the
/// last.
pub proof fn the_best_adapter_is_picked(
    adapters: Vec<AdapterEntry>,
    producer_known: bool,
    r: Option<(usize, bool)>,
    j: int,
)
    requires
        call_ensures(pick_adapter, (&adapters, producer_known), r),
        0 <= j < adapters@.len(),
    ensures
        r matches Some((i, matched)) && {
            let picked = adapters@[i as int];
            let other = adapters@[j];
            &&& i < adapters@.len()
            &&& producer_known && other.matches_producer ==> picked.matches_producer && matched && i
                <= j
            &&& producer_known && matched ==> picked.matches_producer
            &&& !producer_known ==> matched
            &&& !(producer_known && matched) ==> {
                &&& other.device_type is DiscreteGpu ==> picked.device_type is DiscreteGpu
                &&& other.device_type is IntegratedGpu ==> picked.device_type is DiscreteGpu
                    || picked.device_type is IntegratedGpu
                &&& other.device_type is VirtualGpu ==> hardware(picked.device_type)
                &&& other.device_type == picked.device_type ==> j <= i
            }
        },
{
    assert(adapters@[j].matches_producer ==> some_match(adapters@));
}

/// The first adapter that matches does, and none before it; the last of the
/// best is as good as any, and better than any behind it.
pub proof fn matches_and_bests(adapters: Seq<AdapterEntry>, i: int, j: int)
    requires
        0 <= j < adapters.len(),
    ensures
        first_match(adapters, i) ==> 0 <= i < adapters.len() && adapters[i].matches_producer && (j
            < i ==> !adapters[j].matches_producer),
        last_best(adapters, i) ==> 0 <= i < adapters.len() && device_rank(adapters[j].device_type)
            <= device_rank(adapters[i].device_type) && (j > i ==> device_rank(
            adapters[j].device_type,
        ) < device_rank(adapters[i].device_type)),
        adapters[j].matches_producer ==> some_match(adapters),
{
}

/// There is an adapter to pick wherever painting on a GPU is possible.
pub proof fn an_adapter_is_picked_where_there_is_one(
    adapters: Vec<AdapterEntry>,
    producer_known: bool,
    any: bool,
    r: Option<(usize, bool)>,
)
    requires
        call_ensures(any_adapter, (&adapters,), any),
        call_ensures(pick_adapter, (&adapters, producer_known), r),
    ensures
        any <==> r is Some,
        any <==> adapters@.len() != 0,
{
}

/// Shared frames need both: a device that imports them and the device that they
/// come from.
pub proof fn shared_frames_need_the_producing_device(capable: bool, matched: bool, r: bool)
    requires
        call_ensures(can_import_shared, (capable, matched), r),
    ensures
        !capable ==> !r,
        !matched ==> !r,
        capable ==> r == matched,
{
}

/// Each reading of the alpha has its own entry point into the shader, and only
/// that for straight alpha multiplies.
pub proof fn entry_points_follow_the_alpha(premultiplied: &'static str, straight: &'static str)
    requires
        call_ensures(pipeline, (AlphaSource::Premultiplied,), premultiplied),
        call_ensures(pipeline, (AlphaSource::Straight,), straight),
    ensures
        premultiplied@ == "fs_main"@,
        straight@ == premultiplied@ + "_premultiplied"@,
{
    reveal_strlit("fs_main");
    reveal_strlit("_premultiplied");
    reveal_strlit("fs_main_premultiplied");
    assert("fs_main_premultiplied"@ =~= "fs_main"@ + "_premultiplied"@);
}

} // verus!
