//! What holds of the library as a whole: between an allocator and the storages that come of
//! it, along every way of mapping an aperture, and between a storage and its descriptor.

use vstd::prelude::*;

use crate::allocator;
use crate::allocator::{AllocationPlanView, DevbarAllocatorView, DevbarRegionView};
use crate::bar;
use crate::bar::{BarAction, BarEventView, BarMappingView, PendingView, StateView};
use crate::storage;
use crate::storage::{DevbarBacking, DevbarStorageView, RegionDescriptor, ReleaseStep};
use crate::text;
use crate::types::{MemType, StorageErrorView, StorageType};

verus! {

// ---------------------------------------------------------------------------------------
// Mapping an aperture

/// Whether the file of the aperture is open in `state`.
pub open spec fn holds_file(state: StateView) -> bool {
    state is Sizing || state is Mapping || state is Closing
}

/// How often the file was opened along `events`.
pub open spec fn times_opened(m: BarMappingView, events: Seq<BarEventView>) -> nat
    decreases events.len(),
{
    if events.len() == 0 {
        0
    } else {
        times_opened(m, events.drop_last()) + if m.run(events.drop_last()).action() is Open
            && events.last() is Opened {
            1nat
        } else {
            0nat
        }
    }
}

/// How often the file was closed along `events`.
pub open spec fn times_closed(m: BarMappingView, events: Seq<BarEventView>) -> nat
    decreases events.len(),
{
    if events.len() == 0 {
        0
    } else {
        times_closed(m, events.drop_last()) + if m.run(events.drop_last()).action() is Close
            && events.last() is Closed {
            1nat
        } else {
            0nat
        }
    }
}

/// Whether `event` reports a length of the aperture and a page size that admit the request.
pub open spec fn admitting(event: BarEventView, offset: u64, size: usize) -> bool {
    event matches BarEventView::SizeRead { aperture_size, page_size } && {
        &&& page_size == 0 ==> offset == 0
        &&& page_size > 0 ==> offset % page_size == 0
        &&& offset + size <= aperture_size
    }
}

/// Whether one of `events` reports sizes that admit the request.
pub open spec fn size_admitted(events: Seq<BarEventView>, offset: u64, size: usize) -> bool {
    exists|i: int| 0 <= i < events.len() && #[trigger] admitting(events[i], offset, size)
}

/// Whether `event` is a reply to `action`.
pub open spec fn answers(event: BarEventView, action: BarAction) -> bool {
    match action {
        BarAction::ExplainPath => event is PathExplained,
        BarAction::Open => event is Opened || event is OpenFailed,
        BarAction::ReadSize => event is SizeRead || event is SizeFailed,
        BarAction::MapFile { .. } => event is MapReturned || event is MapFailed,
        BarAction::Close => event is Closed,
        BarAction::Finish => false,
    }
}

/// How many replies are still to come at most.
pub open spec fn replies_left(state: StateView) -> nat {
    match state {
        StateView::Explaining => 1,
        StateView::Opening => 4,
        StateView::Sizing => 3,
        StateView::Mapping => 2,
        StateView::Closing(_) => 1,
        StateView::Failed(_) => 0,
        StateView::Mapped(_) => 0,
    }
}

/// A request is admitted exactly when no error refuses it.
pub proof fn law_refused_iff_not_admitted(
    path: Seq<char>,
    offset: u64,
    size: usize,
    aperture_size: u64,
    page_size: u64,
)
    ensures
        bar::refusal(path, offset, size, aperture_size, page_size) is None <==> bar::admits(
            offset,
            size,
            aperture_size,
            page_size,
        ),
        bar::admits(offset, size, aperture_size, page_size) <==> {
            &&& page_size == 0 ==> offset == 0
            &&& page_size > 0 ==> offset % page_size == 0
            &&& offset + size <= aperture_size
        },
{
}

proof fn lemma_request_kept(m: BarMappingView, events: Seq<BarEventView>)
    ensures
        m.run(events).path == m.path,
        m.run(events).offset == m.offset,
        m.run(events).size == m.size,
        m.run(events).device_id == m.device_id,
    decreases events.len(),
{
    if events.len() > 0 {
        lemma_request_kept(m, events.drop_last());
    }
}

/// Every reply to the present action brings the end nearer, so that after four of them at most
/// the action is to finish; a reply to another action changes nothing.
pub proof fn law_replies_lead_to_the_end(m: BarMappingView, event: BarEventView)
    ensures
        answers(event, m.action()) ==> replies_left(m.next(event).state) < replies_left(m.state),
        !answers(event, m.action()) ==> m.next(event) == m,
        replies_left(m.state) == 0 <==> m.action() is Finish,
        replies_left(m.state) <= 4,
{
}

/// Whatever the replies, the file is opened at most once, it is closed only when open, and by
/// the end it has been closed as often as it was opened.
pub proof fn law_file_closed_once(
    path: Seq<char>,
    offset: u64,
    size: usize,
    device_id: u32,
    events: Seq<BarEventView>,
)
    ensures
        ({
            let m = BarMappingView::start(path, offset, size, device_id);
            &&& times_opened(m, events) <= 1
            &&& times_opened(m, events) == times_closed(m, events) + if holds_file(
                m.run(events).state,
            ) {
                1nat
            } else {
                0nat
            }
            &&& m.run(events).action() is Finish ==> times_opened(m, events) == times_closed(
                m,
                events,
            )
        }),
{
    let m = BarMappingView::start(path, offset, size, device_id);
    lemma_open_close(m, events);
}

proof fn lemma_open_close(m: BarMappingView, events: Seq<BarEventView>)
    requires
        m.state is Explaining || m.state is Opening,
    ensures
        times_opened(m, events) == times_closed(m, events) + if holds_file(m.run(events).state) {
            1nat
        } else {
            0nat
        },
        times_opened(m, events) <= 1,
        m.run(events).state is Explaining || m.run(events).state is Opening ==> times_opened(
            m,
            events,
        ) == 0,
    decreases events.len(),
{
    if events.len() > 0 {
        lemma_open_close(m, events.drop_last());
    }
}

/// A path that holds a NUL is refused as a configuration error before anything is opened,
/// whatever the replies; any other path is opened first.
pub proof fn law_nul_in_path_is_refused<H>(
    path: Seq<char>,
    offset: u64,
    size: usize,
    device_id: u32,
    events: Seq<BarEventView>,
)
    ensures
        ({
            let m = BarMappingView::start(path, offset, size, device_id);
            &&& !path.contains('\0') <==> m.action() is Open
            &&& m.run(events).action() is Open ==> !path.contains('\0')
            &&& path.contains('\0') ==> {
                &&& times_opened(m, events) == 0
                &&& m.run(events).action() is ExplainPath || m.run(events).action() is Finish
                &&& m.run(events).outcome::<H>() matches Some(res) ==> {
                    &&& res is Err
                    &&& res->Err_0 is InvalidConfig
                }
            }
        }),
    decreases events.len(),
{
    if events.len() > 0 {
        law_nul_in_path_is_refused::<H>(path, offset, size, device_id, events.drop_last());
    }
}

/// A mapping is asked for, and a storage comes of it, only once sizes were reported that admit
/// the request: a page-aligned offset, and an end within the aperture.
pub proof fn law_maps_only_what_fits<H>(
    path: Seq<char>,
    offset: u64,
    size: usize,
    device_id: u32,
    events: Seq<BarEventView>,
)
    ensures
        ({
            let m = BarMappingView::start(path, offset, size, device_id).run(events);
            &&& m.action() is MapFile ==> {
                &&& size_admitted(events, offset, size)
                &&& m.action() == BarAction::MapFile { len: size, offset }
            }
            &&& m.outcome::<H>() matches Some(Ok(s)) ==> {
                &&& size_admitted(events, offset, size)
                &&& events.contains(BarEventView::MapReturned(s.addr))
            }
        }),
{
    let m = BarMappingView::start(path, offset, size, device_id);
    lemma_request_kept(m, events);
    lemma_admitted(m, events);
}

/// Whether the mapping was asked for before `state` or is asked for in it.
spec fn past_sizing(state: StateView) -> bool {
    match state {
        StateView::Mapping => true,
        StateView::Closing(PendingView::MapFailed) => true,
        StateView::Closing(PendingView::MapReturned(_)) => true,
        StateView::Mapped(_) => true,
        _ => false,
    }
}

proof fn lemma_admitted(m: BarMappingView, events: Seq<BarEventView>)
    requires
        m.state is Explaining || m.state is Opening,
    ensures
        past_sizing(m.run(events).state) ==> size_admitted(events, m.offset, m.size),
        m.run(events).state matches StateView::Closing(PendingView::MapReturned(addr))
            ==> events.contains(BarEventView::MapReturned(addr)),
        m.run(events).state matches StateView::Mapped(addr) ==> events.contains(
            BarEventView::MapReturned(addr),
        ),
    decreases events.len(),
{
    if events.len() > 0 {
        let before = events.drop_last();
        let last = events.last();
        let n = events.len() - 1;
        lemma_admitted(m, before);
        lemma_request_kept(m, before);
        assert(events[n] == last);
        if size_admitted(before, m.offset, m.size) {
            let i = choose|i: int|
                0 <= i < before.len() && #[trigger] admitting(before[i], m.offset, m.size);
            assert(admitting(events[i], m.offset, m.size));
        }
        if admitting(last, m.offset, m.size) {
            assert(admitting(events[n], m.offset, m.size));
        }
        assert forall|e: BarEventView| before.contains(e) implies events.contains(e) by {
            let i = choose|i: int| 0 <= i < before.len() && before[i] == e;
            assert(events[i] == e);
        }
    }
}

/// A mapping that was made is never lost: whatever the replies after it, the only end is a
/// storage over it, so that it is unmapped with that storage.
pub proof fn law_mapping_not_lost<H>(
    path: Seq<char>,
    offset: u64,
    size: usize,
    device_id: u32,
    events: Seq<BarEventView>,
    i: int,
    addr: u64,
)
    requires
        0 <= i < events.len(),
        BarMappingView::start(path, offset, size, device_id).run(events.take(i)).action() is MapFile,
        events[i] == BarEventView::MapReturned(addr),
        addr != 0,
    ensures
        ({
            let m = BarMappingView::start(path, offset, size, device_id).run(events);
            m.action() is Finish ==> m.outcome::<H>() == Some(
                Ok::<DevbarStorageView<H>, StorageErrorView>(
                    DevbarStorageView::fresh(addr, size, device_id, DevbarBacking::Bar),
                ),
            )
        }),
{
    let m = BarMappingView::start(path, offset, size, device_id);
    lemma_request_kept(m, events);
    lemma_mapping_kept(m, events, i, addr);
}

proof fn lemma_mapping_kept(m: BarMappingView, events: Seq<BarEventView>, i: int, addr: u64)
    requires
        0 <= i < events.len(),
        m.run(events.take(i)).state is Mapping,
        events[i] == BarEventView::MapReturned(addr),
        addr != 0,
    ensures
        ({
            let state = m.run(events).state;
            ||| state == StateView::Closing(PendingView::MapReturned(addr))
            ||| state == StateView::Mapped(addr)
        }),
    decreases events.len(),
{
    let before = events.drop_last();
    if i < before.len() {
        assert(before.take(i) =~= events.take(i));
        lemma_mapping_kept(m, before, i, addr);
    } else {
        assert(before =~= events.take(i));
    }
}

/// A request that is larger than the region fails: where every reported aperture ends before
/// the request does, no mapping is asked for and no storage comes of it.
pub proof fn law_oversized_request_fails<H>(
    path: Seq<char>,
    offset: u64,
    size: usize,
    device_id: u32,
    events: Seq<BarEventView>,
)
    requires
        forall|i: int|
            0 <= i < events.len() ==> ((#[trigger] events[i]) matches BarEventView::SizeRead {
                aperture_size,
                ..
            } ==> aperture_size < offset + size),
    ensures
        ({
            let m = BarMappingView::start(path, offset, size, device_id).run(events);
            &&& !(m.action() is MapFile)
            &&& !(m.outcome::<H>() matches Some(Ok(_)))
        }),
{
    law_maps_only_what_fits::<H>(path, offset, size, device_id, events);
    if size_admitted(events, offset, size) {
        let i = choose|i: int| 0 <= i < events.len() && #[trigger] admitting(events[i], offset, size);
        assert(events[i] is SizeRead);
    }
}

/// A request for a path without a NUL that the aperture admits, and that the operating system
/// serves, ends in a storage over exactly the mapping that was made.
pub proof fn law_admitted_request_succeeds<H>(
    path: Seq<char>,
    offset: u64,
    size: usize,
    device_id: u32,
    aperture_size: u64,
    page_size: u64,
    addr: u64,
    os_error: Seq<char>,
)
    requires
        !path.contains('\0'),
        page_size == 0 ==> offset == 0,
        page_size > 0 ==> offset % page_size == 0,
        offset + size <= aperture_size,
        addr != 0,
    ensures
        BarMappingView::start(path, offset, size, device_id).run(
            seq![
                BarEventView::Opened,
                BarEventView::SizeRead { aperture_size, page_size },
                BarEventView::MapReturned(addr),
                BarEventView::Closed(os_error),
            ],
        ).outcome::<H>() == Some(
            Ok::<DevbarStorageView<H>, StorageErrorView>(
                DevbarStorageView::fresh(addr, size, device_id, DevbarBacking::Bar),
            ),
        ),
{
    let m = BarMappingView::start(path, offset, size, device_id);
    let e1 = seq![BarEventView::Opened];
    let e2 = e1.push(BarEventView::SizeRead { aperture_size, page_size });
    let e3 = e2.push(BarEventView::MapReturned(addr));
    let e4 = e3.push(BarEventView::Closed(os_error));
    assert(e1.drop_last() =~= Seq::<BarEventView>::empty());
    assert(e2.drop_last() =~= e1);
    assert(e3.drop_last() =~= e2);
    assert(e4.drop_last() =~= e3);
    assert(m.run(Seq::<BarEventView>::empty()) == m);
    assert(m.run(e1).state is Sizing);
    assert(m.run(e2).state is Mapping);
    assert(m.run(e3).state == StateView::Closing(PendingView::MapReturned(addr)));
    assert(m.run(e4).state == StateView::Mapped(addr));
    lemma_request_kept(m, e4);
    assert(e4 =~= seq![
        BarEventView::Opened,
        BarEventView::SizeRead { aperture_size, page_size },
        BarEventView::MapReturned(addr),
        BarEventView::Closed(os_error),
    ]);
}

// ---------------------------------------------------------------------------------------
// A storage and its descriptor

/// The kind of memory in the descriptor of a storage is that of the type its blocks carry.
pub proof fn law_mem_type_matches_storage_type<H>(s: DevbarStorageView<H>)
    ensures
        s.mem_type() == s.storage_type().spec_nixl_mem_type(),
{
}

/// Devbar memory is device memory of the configured device; the fallback is pinned host memory.
pub proof fn law_devbar_is_device_memory<H>(s: DevbarStorageView<H>)
    ensures
        s.is_devbar_backed() <==> s.storage_type() == StorageType::Device(s.device_id),
        s.is_devbar_backed() <==> s.mem_type() == MemType::Vram,
        !s.is_devbar_backed() <==> s.storage_type() == StorageType::Pinned,
        !s.is_devbar_backed() <==> s.mem_type() == MemType::Dram,
{
}

/// A storage has no descriptor before its registration; after it, the descriptor carries its
/// address and size, its kind of memory and its device, whatever else is registered.
pub proof fn law_descriptor_only_after_registration<H>(
    addr: u64,
    len: usize,
    device_id: u32,
    backing: DevbarBacking,
    registered: DevbarStorageView<H>,
    handle: H,
)
    ensures
        DevbarStorageView::<H>::fresh(addr, len, device_id, backing).nixl_descriptor() is None,
        (DevbarStorageView {
            handles: registered.handles.push((storage::NIXL_KEY@, handle)),
            ..registered
        }).nixl_descriptor() == Some(
            RegionDescriptor {
                addr: registered.addr,
                size: registered.len,
                mem_type: registered.mem_type(),
                device_id: registered.device_id as u64,
            },
        ),
{
    let longer = registered.handles.push((storage::NIXL_KEY@, handle));
    assert(longer[registered.handles.len() as int].0 == storage::NIXL_KEY@);
}

/// No registration outlives the memory that it names: when a storage is undone, every
/// registration is released, once and in its order, and the memory goes away after all of them,
/// in the one last step.
pub proof fn law_handles_released_before_memory<H>(s: DevbarStorageView<H>)
    ensures
        s.release_steps().len() == s.handles.len() + 1,
        forall|i: int|
            0 <= i < s.handles.len() ==> #[trigger] s.release_steps()[i] == ReleaseStep::Handle(
                s.handles[i].1,
            ),
        s.release_steps().last() == if s.is_devbar_backed() {
            ReleaseStep::<H>::Unmap { addr: s.addr, len: s.len }
        } else {
            ReleaseStep::<H>::FreePinned
        },
{
}

/// Filling the whole memory leaves that byte everywhere; of two fillings of the same part the
/// later stands.
pub proof fn law_fill_stands(bytes: Seq<u8>, first: u8, value: u8, offset: int, size: int)
    requires
        0 <= offset,
        0 <= size,
        offset + size <= bytes.len(),
    ensures
        storage::fill(bytes, value, 0, bytes.len() as int) == Seq::new(bytes.len(), |i: int| value),
        storage::fill(storage::fill(bytes, first, offset, size), value, offset, size)
            == storage::fill(bytes, value, offset, size),
{
    assert(storage::fill(bytes, value, 0, bytes.len() as int) =~= Seq::new(
        bytes.len(),
        |i: int| value,
    ));
    assert(storage::fill(storage::fill(bytes, first, offset, size), value, offset, size)
        =~= storage::fill(bytes, value, offset, size));
}

// ---------------------------------------------------------------------------------------
// An allocator and its storages

/// Whether a storage `s` can come of carrying out `plan`, whatever the operating system and the
/// pinned allocator reply.
pub open spec fn can_yield<H>(plan: AllocationPlanView, s: DevbarStorageView<H>) -> bool {
    match plan {
        AllocationPlanView::Bar(m) => exists|events: Seq<BarEventView>|
            (#[trigger] m.run(events)).outcome::<H>() == Some(
                Ok::<DevbarStorageView<H>, StorageErrorView>(s),
            ),
        AllocationPlanView::Mock { size, device_id } => exists|mapping: Result<u64, Seq<char>>|
            #[trigger] storage::mock_outcome::<H>(size, device_id, mapping) == Ok::<
                DevbarStorageView<H>,
                StorageErrorView,
            >(s),
        AllocationPlanView::Pinned { size, device_id } => exists|
            allocation: Result<u64, StorageErrorView>,
        |
            #[trigger] storage::pinned_outcome::<H>(size, device_id, allocation) == Ok::<
                DevbarStorageView<H>,
                StorageErrorView,
            >(s),
    }
}

/// Every storage that can come of an allocator carries the type that the allocator announces,
/// the kind of memory that goes with it, the allocator's device and the requested size. It has
/// no registrations, and exactly a devbar region is unmapped at the end, whole.
pub proof fn law_storage_matches_allocator<H>(
    a: DevbarAllocatorView,
    size: usize,
    s: DevbarStorageView<H>,
)
    requires
        can_yield(a.plan(size), s),
    ensures
        s.valid(),
        s.storage_type() == a.host_storage_type(),
        s.mem_type() == a.host_storage_type().spec_nixl_mem_type(),
        s.is_devbar_backed() <==> a.region is Some,
        s.device_id == a.device_id,
        s.len == size,
        s.handles.len() == 0,
        s.mapping() == if a.region is Some {
            Some((s.addr, size))
        } else {
            None
        },
{
    match a.plan(size) {
        AllocationPlanView::Bar(m) => {
            let events = choose|events: Seq<BarEventView>|
                (#[trigger] m.run(events)).outcome::<H>() == Some(
                    Ok::<DevbarStorageView<H>, StorageErrorView>(s),
                );
            lemma_request_kept(m, events);
            lemma_mapped_not_null(m, events);
        },
        _ => {},
    }
}

proof fn lemma_mapped_not_null(m: BarMappingView, events: Seq<BarEventView>)
    requires
        m.state is Explaining || m.state is Opening,
    ensures
        m.run(events).state matches StateView::Mapped(addr) ==> addr != 0,
    decreases events.len(),
{
    if events.len() > 0 {
        lemma_mapped_not_null(m, events.drop_last());
    }
}

/// Where neither a device nor a mock region is configured, storages are pinned host memory; where
/// nothing is set at all, the allocator is the default one.
pub proof fn law_fallback_unless_configured(vars: Seq<(String, String)>, size: usize)
    requires
        allocator::variable(vars, allocator::DYN_KVBM_DEVBAR_BDF@) is None,
        allocator::variable(vars, allocator::DYN_KVBM_DEVBAR_MOCK@) != Some("1"@),
    ensures
        ({
            let a = DevbarAllocatorView::configured(vars);
            &&& a.region is None
            &&& a.host_storage_type() == StorageType::Pinned
            &&& a.plan(size) == AllocationPlanView::Pinned { size, device_id: Some(a.device_id) }
            &&& allocator::variable(vars, allocator::DYN_KVBM_DEVBAR_DEVICE_ID@) is None ==> a == (
            DevbarAllocatorView { region: None, device_id: 0 })
        }),
{
}

/// A mock region wins over a configured device.
pub proof fn law_mock_wins(vars: Seq<(String, String)>)
    requires
        allocator::variable(vars, allocator::DYN_KVBM_DEVBAR_MOCK@) == Some("1"@),
    ensures
        DevbarAllocatorView::configured(vars).region == Some(DevbarRegionView::Mock),
{
}

/// A device that is configured, without a mock region, is mapped from its first BAR, at the
/// offset whose decimal text is configured.
pub proof fn law_device_is_mapped(vars: Seq<(String, String)>, bdf: Seq<char>, offset: u64)
    requires
        allocator::variable(vars, allocator::DYN_KVBM_DEVBAR_MOCK@) != Some("1"@),
        allocator::variable(vars, allocator::DYN_KVBM_DEVBAR_BDF@) == Some(bdf),
        allocator::variable(vars, allocator::DYN_KVBM_DEVBAR_OFFSET@) == Some(
            text::decimal(offset as nat),
        ),
    ensures
        DevbarAllocatorView::configured(vars).region == Some(
            DevbarRegionView::Bar { path: allocator::resource_path(bdf), offset },
        ),
{
    text::law_decimal_reads_back(offset as nat, u64::MAX as int);
}

/// The device id whose decimal text is configured is the id of the allocator.
pub proof fn law_device_id_is_read(vars: Seq<(String, String)>, device_id: u32)
    requires
        allocator::variable(vars, allocator::DYN_KVBM_DEVBAR_DEVICE_ID@) == Some(
            text::decimal(device_id as nat),
        ),
    ensures
        DevbarAllocatorView::configured(vars).device_id == device_id,
{
    text::law_decimal_reads_back(device_id as nat, u32::MAX as int);
}

} // verus!
