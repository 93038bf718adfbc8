//! What the operations give, stated of calls and their results: how each result follows from
//! the arguments, and how the results of several calls relate.
//!
//! `call_ensures(f, args, result)` says that a call of `f` with `args` may return `result`.

use vstd::prelude::*;

use crate::allocator;
use crate::allocator::{AllocationPlan, DevbarAllocator};
use crate::bar;
use crate::bar::{BarAction, BarEvent, BarMapping};
use crate::registration::RegistrationHandles;
use crate::storage;
use crate::storage::{DevbarBacking, DevbarStorage, RegionDescriptor, ReleaseStep};
use crate::text;
use crate::types::{MemType, StorageError, StorageType};

verus! {

// ---------------------------------------------------------------------------------------
// Decimal text

/// Decimal text is written digit by digit: a number below ten is its one digit, and any other is
/// the text of its tenth part, followed by the digit of the rest.
pub proof fn law_decimal_text(n: u64, written: String, tenth: String)
    requires
        call_ensures(text::decimal_string, (n,), written),
        call_ensures(text::decimal_string, (n / 10,), tenth),
    ensures
        written@ == text::decimal(n as nat),
        n < 10 ==> written@ == seq![(48 + n) as char],
        n >= 10 ==> written@ == tenth@.push((48 + n % 10) as char),
{
}

/// A number is read digit by digit. No text at all is no number, and neither is one character
/// other than a digit; one digit more makes the number ten times as large, plus the digit, as
/// long as it stays at most `max`; anything but a digit, or a number that was none before, makes
/// it none. Only a plus sign at the very beginning counts for nothing.
pub proof fn law_number_text(s: Seq<char>, c: char, max: int)
    requires
        0 <= max,
    ensures
        text::unsigned_value(Seq::empty(), max) is None,
        text::unsigned_value(seq![c], max) == if '0' <= c <= '9' && c as int - 48 <= max {
            Some(c as int - 48)
        } else {
            None
        },
        s == seq!['+'] ==> text::unsigned_value(s.push(c), max) == if '0' <= c <= '9' && c as int - 48
            <= max {
            Some(c as int - 48)
        } else {
            None
        },
        s.len() > 0 && s != seq!['+'] ==> text::unsigned_value(s.push(c), max) == match text::unsigned_value(
            s,
            max,
        ) {
            Some(n) => if '0' <= c <= '9' && n * 10 + (c as int - 48) <= max {
                Some(n * 10 + (c as int - 48))
            } else {
                None
            },
            None => None,
        },
{
    assert(text::without_plus(Seq::<char>::empty()) =~= Seq::<char>::empty());
    lemma_one_digit(c);
    if c == '+' {
        assert(text::without_plus(seq![c]) =~= Seq::<char>::empty());
    } else {
        assert(text::without_plus(seq![c]) =~= seq![c]);
    }
    if s == seq!['+'] {
        assert(text::without_plus(s.push(c)) =~= seq![c]);
    } else if s.len() > 0 {
        let shorter = text::without_plus(s);
        assert(text::without_plus(s.push(c)) =~= shorter.push(c));
        if shorter.len() == 0 {
            assert(s =~= seq!['+']);
        }
        lemma_digit_more(shorter, c);
    }
}

proof fn lemma_one_digit(c: char)
    ensures
        text::digits_value(seq![c]) == c as int - 48,
        text::all_digits(seq![c]) <==> '0' <= c <= '9',
{
    assert(seq![c].drop_last() =~= Seq::<char>::empty());
    assert(text::digits_value(Seq::<char>::empty()) == 0);
    assert(seq![c][0] == c);
}

proof fn lemma_digit_more(s: Seq<char>, c: char)
    ensures
        text::digits_value(s.push(c)) == text::digits_value(s) * 10 + (c as int - 48),
        text::all_digits(s.push(c)) <==> text::all_digits(s) && '0' <= c <= '9',
        text::all_digits(s) ==> text::digits_value(s) >= 0,
    decreases s.len(),
{
    let longer = s.push(c);
    assert(longer.drop_last() =~= s);
    assert(longer[s.len() as int] == c);
    if text::all_digits(longer) {
        assert(text::is_digit(longer[s.len() as int]));
        assert forall|i: int| 0 <= i < s.len() implies text::is_digit(#[trigger] s[i]) by {
            assert(longer[i] == s[i]);
        }
    }
    if s.len() > 0 {
        lemma_digit_more(s.drop_last(), s.last());
        assert(s.drop_last().push(s.last()) =~= s);
    }
}

/// Reading a text gives the number that it writes, and nothing where it writes none.
pub proof fn law_number_read(written: &str, max: u64, value: Option<u64>)
    requires
        call_ensures(text::parse_unsigned, (written, max), value),
    ensures
        value is Some <==> text::unsigned_value(written@, max as int) is Some,
        value matches Some(n) ==> text::unsigned_value(written@, max as int) == Some(n as int),
{
}

// ---------------------------------------------------------------------------------------
// Mapping an aperture

/// A request is accepted exactly when its offset is a multiple of the page size (with a page size
/// of zero, when it is zero) and its end lies within the aperture.
pub proof fn law_aperture_decision(
    path: &str,
    offset: u64,
    size: usize,
    aperture_size: u64,
    page_size: u64,
    res: Result<(), StorageError>,
)
    requires
        call_ensures(bar::check_aperture, (path, offset, size, aperture_size, page_size), res),
    ensures
        page_size > 0 && offset % page_size == 0 && offset + size <= aperture_size ==> res is Ok,
        page_size > 0 && offset % page_size != 0 ==> res is Err,
        page_size == 0 && offset == 0 && size <= aperture_size ==> res is Ok,
        page_size == 0 && offset != 0 ==> res is Err,
        offset + size > aperture_size ==> res is Err,
{
}

/// The message of a refusal says what is wrong with the request: first the offset, then an end
/// that overflows, then an end past the aperture.
pub proof fn law_aperture_refusal(
    path: &str,
    offset: u64,
    size: usize,
    aperture_size: u64,
    page_size: u64,
    error: StorageError,
)
    requires
        call_ensures(
            bar::check_aperture,
            (path, offset, size, aperture_size, page_size),
            Err::<(), StorageError>(error),
        ),
    ensures
        ({
            let aligned = if page_size == 0 {
                offset == 0
            } else {
                offset % page_size == 0
            };
            let request = "devbar request (offset "@ + text::decimal(offset as nat) + " + "@
                + text::decimal(size as nat) + " bytes)"@;
            error matches StorageError::InvalidConfig(message) && message@ == if !aligned {
                "devbar offset "@ + text::decimal(offset as nat)
                    + " is not page-aligned; sysfs resource mmap requires a page-aligned offset of "@
                    + path@ + "."@
            } else if offset + size > u64::MAX {
                request + " overflows of "@ + path@ + "."@
            } else {
                request + " exceeds aperture size ("@ + text::decimal(aperture_size as nat)
                    + " bytes) of "@ + path@
                    + ". KVBM tier-2 capacity must be >= the GPU KV cache size; reduce DYN_KVBM_CPU_CACHE_GB."@
            }
        }),
{
}

/// A mapping is about the request that it was begun with: it opens the file first, unless the
/// path holds a NUL, and has no result yet.
pub proof fn law_mapping_begun<H>(
    path: String,
    offset: u64,
    size: usize,
    device_id: u32,
    m: BarMapping,
    action: BarAction,
    shown: &str,
)
    requires
        call_ensures(DevbarStorage::<H>::from_bar, (path, offset, size, device_id), m),
        call_ensures(BarMapping::action, (&m,), action),
        call_ensures(BarMapping::path, (&m,), shown),
    ensures
        shown@ == path@,
        m@.path == path@,
        m@.offset == offset,
        m@.size == size,
        m@.device_id == device_id,
        path@.contains('\0') ==> action == BarAction::ExplainPath,
        !path@.contains('\0') ==> action == BarAction::Open,
{
}

/// Every reply leaves the request as it was.
pub proof fn law_request_kept(m: BarMapping, event: BarEvent, n: BarMapping)
    requires
        call_ensures(BarMapping::step, (m, event), n),
    ensures
        n@.path == m@.path,
        n@.offset == m@.offset,
        n@.size == m@.size,
        n@.device_id == m@.device_id,
{
}

/// A reply to another action than the present one changes nothing at all.
pub proof fn law_other_replies_ignored(m: BarMapping, action: BarAction, event: BarEvent, n: BarMapping)
    requires
        call_ensures(BarMapping::action, (&m,), action),
        call_ensures(BarMapping::step, (m, event), n),
        match event {
            BarEvent::PathExplained(_) => !(action is ExplainPath),
            BarEvent::Opened => !(action is Open),
            BarEvent::OpenFailed(_) => !(action is Open),
            BarEvent::SizeRead { .. } => !(action is ReadSize),
            BarEvent::SizeFailed => !(action is ReadSize),
            BarEvent::MapReturned(_) => !(action is MapFile),
            BarEvent::MapFailed => !(action is MapFile),
            BarEvent::Closed(_) => !(action is Close),
        },
    ensures
        n@ == m@,
{
}

/// There is a result exactly when the action is to finish.
pub proof fn law_result_at_the_end<H>(
    m: BarMapping,
    action: BarAction,
    res: Option<Result<DevbarStorage<H>, StorageError>>,
)
    requires
        call_ensures(BarMapping::action, (&m,), action),
        call_ensures(BarMapping::finish::<H>, (m,), res),
    ensures
        res is Some <==> action == BarAction::Finish,
{
}

/// A path that cannot be a C string ends the mapping with what was said of it.
pub proof fn law_path_explained<H>(
    m: BarMapping,
    why: String,
    n: BarMapping,
    res: Option<Result<DevbarStorage<H>, StorageError>>,
)
    requires
        call_ensures(BarMapping::action, (&m,), BarAction::ExplainPath),
        call_ensures(BarMapping::step, (m, BarEvent::PathExplained(why)), n),
        call_ensures(BarMapping::finish::<H>, (n,), res),
    ensures
        res matches Some(Err(StorageError::InvalidConfig(message))) && message@ == why@,
{
}

/// A file that is open is asked for its length next; one that cannot be opened ends the mapping.
pub proof fn law_open_replied<H>(
    m: BarMapping,
    os_error: String,
    opened: BarMapping,
    failed: BarMapping,
    next: BarAction,
    res: Option<Result<DevbarStorage<H>, StorageError>>,
)
    requires
        call_ensures(BarMapping::action, (&m,), BarAction::Open),
        call_ensures(BarMapping::step, (m, BarEvent::Opened), opened),
        call_ensures(BarMapping::action, (&opened,), next),
        call_ensures(BarMapping::step, (m, BarEvent::OpenFailed(os_error)), failed),
        call_ensures(BarMapping::finish::<H>, (failed,), res),
    ensures
        next == BarAction::ReadSize,
        res matches Some(Err(StorageError::AllocationFailed(message))) && message@
            == "failed to open devbar region file "@ + m@.path + ": "@ + os_error@,
{
}

/// Once the sizes are known, a request that fits is mapped next, as it was made: with its own
/// length, at its own offset. Any other leads to closing the file.
pub proof fn law_sizes_replied(
    m: BarMapping,
    aperture_size: u64,
    page_size: u64,
    n: BarMapping,
    next: BarAction,
)
    requires
        call_ensures(BarMapping::action, (&m,), BarAction::ReadSize),
        call_ensures(BarMapping::step, (m, BarEvent::SizeRead { aperture_size, page_size }), n),
        call_ensures(BarMapping::action, (&n,), next),
    ensures
        ({
            let aligned = if page_size == 0 {
                m@.offset == 0
            } else {
                m@.offset % page_size == 0
            };
            if aligned && m@.offset + m@.size <= aperture_size {
                next == BarAction::MapFile { len: m@.size, offset: m@.offset }
            } else {
                next == BarAction::Close
            }
        }),
{
}

/// A request that does not fit ends, after the file is closed, in the error with which the check
/// of the aperture refuses it.
pub proof fn law_refused_mapping_ends<H>(
    m: BarMapping,
    path: &str,
    aperture_size: u64,
    page_size: u64,
    refused: StorageError,
    n: BarMapping,
    os_error: String,
    closed: BarMapping,
    res: Option<Result<DevbarStorage<H>, StorageError>>,
)
    requires
        call_ensures(BarMapping::action, (&m,), BarAction::ReadSize),
        call_ensures(BarMapping::path, (&m,), path),
        call_ensures(
            bar::check_aperture,
            (path, m@.offset, m@.size, aperture_size, page_size),
            Err::<(), StorageError>(refused),
        ),
        call_ensures(BarMapping::step, (m, BarEvent::SizeRead { aperture_size, page_size }), n),
        call_ensures(BarMapping::step, (n, BarEvent::Closed(os_error)), closed),
        call_ensures(BarMapping::finish::<H>, (closed,), res),
    ensures
        refused matches StorageError::InvalidConfig(said) && res matches Some(
            Err(StorageError::InvalidConfig(message)),
        ) && message@ == said@,
{
}

/// A length that cannot be read ends the mapping after the file is closed, with the last error of
/// the operating system by then.
pub proof fn law_size_failed<H>(
    m: BarMapping,
    n: BarMapping,
    next: BarAction,
    os_error: String,
    closed: BarMapping,
    res: Option<Result<DevbarStorage<H>, StorageError>>,
)
    requires
        call_ensures(BarMapping::action, (&m,), BarAction::ReadSize),
        call_ensures(BarMapping::step, (m, BarEvent::SizeFailed), n),
        call_ensures(BarMapping::action, (&n,), next),
        call_ensures(BarMapping::step, (n, BarEvent::Closed(os_error)), closed),
        call_ensures(BarMapping::finish::<H>, (closed,), res),
    ensures
        next == BarAction::Close,
        res matches Some(Err(StorageError::AllocationFailed(message))) && message@
            == "fstat failed for "@ + m@.path + ": "@ + os_error@,
{
}

/// A mapping that was not made ends the same way.
pub proof fn law_map_failed<H>(
    m: BarMapping,
    action: BarAction,
    n: BarMapping,
    next: BarAction,
    os_error: String,
    closed: BarMapping,
    res: Option<Result<DevbarStorage<H>, StorageError>>,
)
    requires
        call_ensures(BarMapping::action, (&m,), action),
        action is MapFile,
        call_ensures(BarMapping::step, (m, BarEvent::MapFailed), n),
        call_ensures(BarMapping::action, (&n,), next),
        call_ensures(BarMapping::step, (n, BarEvent::Closed(os_error)), closed),
        call_ensures(BarMapping::finish::<H>, (closed,), res),
    ensures
        next == BarAction::Close,
        res matches Some(Err(StorageError::AllocationFailed(message))) && message@
            == "mmap of devbar region "@ + m@.path + " failed: "@ + os_error@,
{
}

/// A mapping that was made ends, after the file is closed, in a storage at its address, with the
/// length and the device that were asked for; one at the null address ends in an error.
pub proof fn law_map_returned<H>(
    m: BarMapping,
    action: BarAction,
    addr: u64,
    n: BarMapping,
    next: BarAction,
    os_error: String,
    closed: BarMapping,
    res: Option<Result<DevbarStorage<H>, StorageError>>,
)
    requires
        call_ensures(BarMapping::action, (&m,), action),
        action is MapFile,
        call_ensures(BarMapping::step, (m, BarEvent::MapReturned(addr)), n),
        call_ensures(BarMapping::action, (&n,), next),
        call_ensures(BarMapping::step, (n, BarEvent::Closed(os_error)), closed),
        call_ensures(BarMapping::finish::<H>, (closed,), res),
    ensures
        next == BarAction::Close,
        action == (BarAction::MapFile { len: m@.size, offset: m@.offset }),
        addr == 0 ==> (res matches Some(Err(StorageError::AllocationFailed(message))) && message@
            == "mmap returned null"@),
        addr != 0 ==> (res matches Some(Ok(s)) && {
            &&& s@.addr == addr
            &&& s@.len == m@.size
            &&& s@.device_id == m@.device_id
            &&& s@.backing == DevbarBacking::Bar
            &&& s@.handles == Seq::<(Seq<char>, H)>::empty()
        }),
{
}

// ---------------------------------------------------------------------------------------
// A storage

/// What a mock region comes to: the operating system's error; an error where the address is
/// null; and else a storage at exactly that address, of the requested size, for the requested
/// device, without registrations.
pub proof fn law_mock_given<H>(
    size: usize,
    device_id: u32,
    mapping: Result<u64, String>,
    res: Result<DevbarStorage<H>, StorageError>,
)
    requires
        call_ensures(DevbarStorage::<H>::mock, (size, device_id, mapping), res),
    ensures
        mapping matches Err(os_error) ==> (res matches Err(StorageError::AllocationFailed(message))
            && message@ == "anonymous mmap failed: "@ + os_error@),
        mapping matches Ok(addr) && addr == 0 ==> (res matches Err(
            StorageError::AllocationFailed(message),
        ) && message@ == "mmap returned null"@),
        mapping matches Ok(addr) && addr != 0 ==> (res matches Ok(s) && {
            &&& s@.addr == mapping->Ok_0
            &&& s@.len == size
            &&& s@.device_id == device_id
            &&& s@.backing == DevbarBacking::Mock
            &&& s@.handles == Seq::<(Seq<char>, H)>::empty()
        }),
{
}

/// What a pinned allocation comes to: the error of the allocator, as it is; an error where the
/// address is null; and else a storage at exactly that address, of the requested size, for the
/// requested device or else device zero, without registrations.
pub proof fn law_pinned_given<H>(
    size: usize,
    device_id: Option<u32>,
    allocation: Result<u64, StorageError>,
    res: Result<DevbarStorage<H>, StorageError>,
)
    requires
        call_ensures(DevbarStorage::<H>::pinned_fallback, (size, device_id, allocation), res),
    ensures
        allocation matches Err(error) ==> res == Err::<DevbarStorage<H>, StorageError>(error),
        allocation matches Ok(addr) && addr == 0 ==> (res matches Err(
            StorageError::AllocationFailed(message),
        ) && message@ == "pinned allocation returned null"@),
        allocation matches Ok(addr) && addr != 0 ==> (res matches Ok(s) && {
            &&& s@.addr == allocation->Ok_0
            &&& s@.len == size
            &&& device_id matches Some(id) ==> s@.device_id == id
            &&& device_id is None ==> s@.device_id == 0
            &&& s@.backing == DevbarBacking::Pinned
            &&& s@.handles == Seq::<(Seq<char>, H)>::empty()
        }),
{
}

/// What a storage is depends on its backing alone, whatever is registered: a devbar region,
/// BAR-mapped or mock, is memory of its device and goes away by unmapping the whole of it; the
/// fallback is pinned host memory and goes away by being freed.
pub proof fn law_kind_follows_backing<H>(
    s: DevbarStorage<H>,
    devbar: bool,
    storage_type: StorageType,
    mem_type: MemType,
    steps: Vec<ReleaseStep<H>>,
)
    requires
        call_ensures(DevbarStorage::<H>::is_devbar_backed, (&s,), devbar),
        call_ensures(DevbarStorage::<H>::storage_type, (&s,), storage_type),
        call_ensures(DevbarStorage::<H>::mem_type, (&s,), mem_type),
        call_ensures(DevbarStorage::<H>::release, (s,), steps),
    ensures
        s@.backing == DevbarBacking::Bar || s@.backing == DevbarBacking::Mock ==> {
            &&& devbar
            &&& storage_type == StorageType::Device(s@.device_id)
            &&& mem_type == MemType::Vram
            &&& steps@.last() == ReleaseStep::<H>::Unmap { addr: s@.addr, len: s@.len }
        },
        s@.backing == DevbarBacking::Pinned ==> {
            &&& !devbar
            &&& storage_type == StorageType::Pinned
            &&& mem_type == MemType::Dram
            &&& steps@.last() == ReleaseStep::<H>::FreePinned
        },
{
}

/// The parts of a storage are told as they are, and its address is never null.
pub proof fn law_parts_told<H>(s: DevbarStorage<H>, addr: u64, size: usize, device_id: u64)
    requires
        call_ensures(DevbarStorage::<H>::addr, (&s,), addr),
        call_ensures(DevbarStorage::<H>::size, (&s,), size),
        call_ensures(DevbarStorage::<H>::device_id, (&s,), device_id),
    ensures
        addr == s@.addr,
        addr != 0,
        size == s@.len,
        device_id == s@.device_id,
        forall|i: int, j: int|
            0 <= i < j < s@.handles.len() ==> (#[trigger] s@.handles[i]).0 != (
            #[trigger] s@.handles[j]).0,
{
}

/// The kind of memory that goes with a type of storage.
pub proof fn law_mem_type_of_storage_type(t: StorageType, mem_type: MemType)
    requires
        call_ensures(StorageType::nixl_mem_type, (&t,), mem_type),
    ensures
        t is Device ==> mem_type == MemType::Vram,
        t is Pinned ==> mem_type == MemType::Dram,
{
}

/// A storage has a descriptor exactly when it is registered under `nixl`, and the descriptor
/// says what the storage itself says: its address, its size, its kind of memory, its device.
pub proof fn law_descriptor_told<H>(
    s: DevbarStorage<H>,
    descriptor: Option<RegionDescriptor>,
    key: &str,
    registered: bool,
    addr: u64,
    size: usize,
    mem_type: MemType,
    device_id: u64,
)
    requires
        key@ == "nixl"@,
        call_ensures(DevbarStorage::<H>::as_nixl_descriptor, (&s,), descriptor),
        call_ensures(DevbarStorage::<H>::is_registered, (&s, key), registered),
        call_ensures(DevbarStorage::<H>::addr, (&s,), addr),
        call_ensures(DevbarStorage::<H>::size, (&s,), size),
        call_ensures(DevbarStorage::<H>::mem_type, (&s,), mem_type),
        call_ensures(DevbarStorage::<H>::device_id, (&s,), device_id),
    ensures
        storage::NIXL_KEY@ == "nixl"@,
        descriptor is Some <==> registered,
        descriptor matches Some(d) ==> d == (RegionDescriptor { addr, size, mem_type, device_id }),
{
}

/// A fill that ends past the storage is refused and changes no byte. Any other sets every byte
/// from `offset` up to `offset + size`, and leaves every other byte and the length as they were.
pub proof fn law_memset_bytes<H>(
    s: DevbarStorage<H>,
    memory: &mut [u8],
    value: u8,
    offset: usize,
    size: usize,
    res: Result<(), StorageError>,
)
    requires
        old(memory)@.len() == s@.len,
        call_ensures(DevbarStorage::<H>::memset, (&s, memory, value, offset, size), res),
    ensures
        res is Ok <==> offset + size <= s@.len,
        final(memory)@.len() == old(memory)@.len(),
        forall|i: int|
            0 <= i < old(memory)@.len() ==> #[trigger] final(memory)@[i] == if res is Ok && offset
                <= i < offset + size {
                value
            } else {
                old(memory)@[i]
            },
        res matches Err(error) ==> (error matches StorageError::OperationFailed(message)
            && message@ == "memset: offset + size > storage size"@),
{
}

/// A storage is undone in one step per registration, with its handle, in the order in which they
/// were made, and one step more.
pub proof fn law_release_in_order<H>(s: DevbarStorage<H>, steps: Vec<ReleaseStep<H>>)
    requires
        call_ensures(DevbarStorage::<H>::release, (s,), steps),
    ensures
        steps@.len() == s@.handles.len() + 1,
        forall|i: int|
            0 <= i < s@.handles.len() ==> #[trigger] steps@[i] == ReleaseStep::Handle(
                s@.handles[i].1,
            ),
        !(steps@.last() is Handle),
{
}

/// A key is registered exactly when one of the registrations has it, and its handle is the one
/// that was given with it.
pub proof fn law_registered_keys<H>(
    s: DevbarStorage<H>,
    key: &str,
    registered: bool,
    handle: Option<&H>,
)
    requires
        call_ensures(DevbarStorage::<H>::is_registered, (&s, key), registered),
        call_ensures(DevbarStorage::<H>::registration_handle, (&s, key), handle),
    ensures
        registered <==> exists|i: int|
            0 <= i < s@.handles.len() && (#[trigger] s@.handles[i]).0 == key@,
        handle is Some <==> registered,
        handle matches Some(h) ==> s@.handles.contains((key@, *h)),
{
    lemma_handle_found(s@.handles, key@);
}

proof fn lemma_handle_found<H>(entries: Seq<(Seq<char>, H)>, key: Seq<char>)
    ensures
        crate::registration::handle_of(entries, key) is Some <==> exists|i: int|
            0 <= i < entries.len() && (#[trigger] entries[i]).0 == key,
        crate::registration::handle_of(entries, key) matches Some(h) ==> entries.contains((key, h)),
    decreases entries.len(),
{
    crate::registration::law_handle_iff_registered(entries, key);
    if entries.len() > 0 {
        let rest = entries.skip(1);
        if entries[0].0 == key {
            assert(entries[0] == (key, entries[0].1));
        } else {
            lemma_handle_found(rest, key);
            if crate::registration::handle_of(entries, key) is Some {
                let h = crate::registration::handle_of(rest, key)->0;
                let i = choose|i: int| 0 <= i < rest.len() && rest[i] == (key, h);
                assert(entries[i + 1] == (key, h));
            }
        }
    }
}

/// A registration is refused exactly when its key is taken, and then changes nothing. Else it is
/// added behind the others; what else there is to know of the storage stays as it was.
pub proof fn law_registration_given<H>(
    s: &mut DevbarStorage<H>,
    key: &str,
    handle: H,
    res: Result<(), StorageError>,
    taken: bool,
)
    requires
        call_ensures(DevbarStorage::<H>::is_registered, (&*old(s), key), taken),
        call_ensures(DevbarStorage::<H>::register, (s, key, handle), res),
    ensures
        res is Err <==> taken,
        res matches Err(error) ==> (error matches StorageError::RegistrationKeyExists(named)
            && named@ == key@),
        final(s)@.addr == old(s)@.addr,
        final(s)@.len == old(s)@.len,
        final(s)@.device_id == old(s)@.device_id,
        final(s)@.backing == old(s)@.backing,
        res is Ok ==> final(s)@.handles == old(s)@.handles.push((key@, handle)),
        res is Err ==> final(s)@.handles == old(s)@.handles,
{
}

/// What a registration does to the calls after it: its key is registered, with its handle, and
/// every other key is registered or not as it was, with the handle that it had. The storage
/// keeps its address, size, kind and device.
pub proof fn law_registration_seen<H>(
    s: &mut DevbarStorage<H>,
    key: &str,
    handle: H,
    found: Option<&H>,
    other: &str,
    before: Option<&H>,
    after: Option<&H>,
    type_before: StorageType,
    type_after: StorageType,
    mem_before: MemType,
    mem_after: MemType,
)
    requires
        call_ensures(DevbarStorage::<H>::register, (s, key, handle), Ok::<(), StorageError>(())),
        call_ensures(DevbarStorage::<H>::registration_handle, (&*final(s), key), found),
        other@ != key@,
        call_ensures(DevbarStorage::<H>::registration_handle, (&*old(s), other), before),
        call_ensures(DevbarStorage::<H>::registration_handle, (&*final(s), other), after),
        call_ensures(DevbarStorage::<H>::storage_type, (&*old(s),), type_before),
        call_ensures(DevbarStorage::<H>::storage_type, (&*final(s),), type_after),
        call_ensures(DevbarStorage::<H>::mem_type, (&*old(s),), mem_before),
        call_ensures(DevbarStorage::<H>::mem_type, (&*final(s),), mem_after),
    ensures
        found matches Some(h) && *h == handle,
        after is Some <==> before is Some,
        before matches Some(b) ==> (after matches Some(a) && *a == *b),
        type_after == type_before,
        mem_after == mem_before,
{
    crate::registration::law_registration_found(old(s)@.handles, key@, handle, other@);
}

/// The registrations by themselves: none at first; a free key is added behind the others, a taken
/// one is refused; they are given up in their order.
pub proof fn law_registrations_alone<H>(
    fresh: RegistrationHandles<H>,
    r: &mut RegistrationHandles<H>,
    key: &str,
    handle: H,
    res: Result<(), StorageError>,
    taken: bool,
    given_up: Vec<H>,
)
    requires
        call_ensures(RegistrationHandles::<H>::new, (), fresh),
        call_ensures(RegistrationHandles::<H>::is_registered, (&*old(r), key), taken),
        call_ensures(RegistrationHandles::<H>::register, (r, key, handle), res),
        call_ensures(RegistrationHandles::<H>::release, (*final(r),), given_up),
    ensures
        fresh@ == Seq::<(Seq<char>, H)>::empty(),
        taken <==> exists|i: int| 0 <= i < old(r)@.len() && (#[trigger] old(r)@[i]).0 == key@,
        res is Ok <==> !taken,
        res is Ok ==> final(r)@ == old(r)@.push((key@, handle)),
        res matches Err(error) ==> final(r)@ == old(r)@ && (
        error matches StorageError::RegistrationKeyExists(named) && named@ == key@),
        given_up@.len() == final(r)@.len(),
        forall|i: int|
            0 <= i < given_up@.len() ==> #[trigger] given_up@[i] == final(r)@[i].1,
{
}

// ---------------------------------------------------------------------------------------
// An allocator

/// A variable has the value of the first entry with its name, and is not set where none has it.
pub proof fn law_variable_looked_up(vars: Seq<(String, String)>, name: Seq<char>, i: int)
    ensures
        0 <= i < vars.len() && vars[i].0@ == name && (forall|j: int|
            0 <= j < i ==> (#[trigger] vars[j]).0@ != name) ==> allocator::variable(vars, name) == Some(
            vars[i].1@,
        ),
        (forall|j: int| 0 <= j < vars.len() ==> (#[trigger] vars[j]).0@ != name)
            ==> allocator::variable(vars, name) is None,
    decreases vars.len(),
{
    if vars.len() > 0 {
        let rest = vars.skip(1);
        law_variable_looked_up(rest, name, i - 1);
        if vars[0].0@ != name {
            assert(forall|j: int| 0 <= j < rest.len() ==> #[trigger] rest[j] == vars[j + 1]);
        }
    }
}

/// The device id is the number in `DYN_KVBM_DEVBAR_DEVICE_ID`, whatever region is configured: zero
/// where the variable is not set or does not hold a number of 32 bits.
pub proof fn law_env_device_id(
    vars: &Vec<(String, String)>,
    res: Result<DevbarAllocator, StorageError>,
    storage_type: StorageType,
)
    requires
        call_ensures(DevbarAllocator::from_env, (vars,), res),
        call_ensures(DevbarAllocator::host_storage_type, (&res->Ok_0,), storage_type),
    ensures
        res is Ok,
        ({
            let id = allocator::variable(vars@, "DYN_KVBM_DEVBAR_DEVICE_ID"@);
            &&& id is None ==> res->Ok_0@.device_id == 0
            &&& id matches Some(t) ==> match text::unsigned_value(t, 0xffff_ffff) {
                Some(n) => res->Ok_0@.device_id == n,
                None => res->Ok_0@.device_id == 0,
            }
        }),
        storage_type == StorageType::Device(res->Ok_0@.device_id) || storage_type
            == StorageType::Pinned,
{
    if let Some(t) = allocator::variable(vars@, "DYN_KVBM_DEVBAR_DEVICE_ID"@) {
        lemma_value_not_negative(t, 0xffff_ffff);
    }
}

proof fn lemma_value_not_negative(s: Seq<char>, max: int)
    ensures
        text::unsigned_value(s, max) matches Some(n) ==> 0 <= n <= max,
{
    let digits = text::without_plus(s);
    if digits.len() > 0 {
        lemma_digit_more(digits, '0');
    }
}

/// Which memory the environment selects: an anonymous mapping where `DYN_KVBM_DEVBAR_MOCK` is
/// `1` and nothing else; else the first BAR of the device that `DYN_KVBM_DEVBAR_BDF` names, at
/// the offset in `DYN_KVBM_DEVBAR_OFFSET`, or zero where that is not set or holds no number;
/// else pinned memory.
pub proof fn law_env_region(
    vars: &Vec<(String, String)>,
    a: DevbarAllocator,
    storage_type: StorageType,
    size: usize,
    plan: AllocationPlan,
)
    requires
        call_ensures(DevbarAllocator::from_env, (vars,), Ok::<DevbarAllocator, StorageError>(a)),
        call_ensures(DevbarAllocator::host_storage_type, (&a,), storage_type),
        call_ensures(DevbarAllocator::allocate, (&a, size), plan),
    ensures
        ({
            let mock = allocator::variable(vars@, "DYN_KVBM_DEVBAR_MOCK"@);
            let bdf = allocator::variable(vars@, "DYN_KVBM_DEVBAR_BDF"@);
            let offset = allocator::variable(vars@, "DYN_KVBM_DEVBAR_OFFSET"@);
            let id = a@.device_id;
            &&& mock == Some("1"@) ==> {
                &&& storage_type == StorageType::Device(id)
                &&& plan == AllocationPlan::Mock { size, device_id: id }
            }
            &&& mock != Some("1"@) && bdf is Some ==> {
                &&& storage_type == StorageType::Device(id)
                &&& plan matches AllocationPlan::Bar(m) && {
                    &&& m@.path == "/sys/bus/pci/devices/"@ + bdf->0 + "/resource0"@
                    &&& offset is None ==> m@.offset == 0
                    &&& offset matches Some(t) ==> match text::unsigned_value(
                        t,
                        0xffff_ffff_ffff_ffff,
                    ) {
                        Some(n) => m@.offset == n,
                        None => m@.offset == 0,
                    }
                    &&& m@.size == size
                    &&& m@.device_id == id
                }
            }
            &&& mock != Some("1"@) && bdf is None ==> {
                &&& storage_type == StorageType::Pinned
                &&& plan == AllocationPlan::Pinned { size, device_id: Some(id) }
            }
        }),
{
    if let Some(t) = allocator::variable(vars@, "DYN_KVBM_DEVBAR_OFFSET"@) {
        lemma_value_not_negative(t, 0xffff_ffff_ffff_ffff);
    }
}

/// The variables go by these names.
pub proof fn law_variable_names()
    ensures
        allocator::DYN_KVBM_DEVBAR_BDF@ == "DYN_KVBM_DEVBAR_BDF"@,
        allocator::DYN_KVBM_DEVBAR_MOCK@ == "DYN_KVBM_DEVBAR_MOCK"@,
        allocator::DYN_KVBM_DEVBAR_OFFSET@ == "DYN_KVBM_DEVBAR_OFFSET"@,
        allocator::DYN_KVBM_DEVBAR_DEVICE_ID@ == "DYN_KVBM_DEVBAR_DEVICE_ID"@,
{
}

/// An allocator over a mock region announces memory of its device and plans an anonymous mapping
/// of the requested size for it.
pub proof fn law_mock_allocator(
    device_id: u32,
    a: DevbarAllocator,
    storage_type: StorageType,
    size: usize,
    plan: AllocationPlan,
)
    requires
        call_ensures(DevbarAllocator::mock, (device_id,), a),
        call_ensures(DevbarAllocator::host_storage_type, (&a,), storage_type),
        call_ensures(DevbarAllocator::allocate, (&a, size), plan),
    ensures
        storage_type == StorageType::Device(device_id),
        plan == (AllocationPlan::Mock { size, device_id }),
{
}

/// An allocator over an aperture announces memory of its device and plans what mapping the
/// aperture itself would begin with.
pub proof fn law_bar_allocator<H>(
    path: String,
    offset: u64,
    device_id: u32,
    a: DevbarAllocator,
    storage_type: StorageType,
    size: usize,
    plan: AllocationPlan,
    begun: BarMapping,
)
    requires
        call_ensures(DevbarAllocator::bar, (path, offset, device_id), a),
        call_ensures(DevbarAllocator::host_storage_type, (&a,), storage_type),
        call_ensures(DevbarAllocator::allocate, (&a, size), plan),
        call_ensures(DevbarStorage::<H>::from_bar, (path, offset, size, device_id), begun),
    ensures
        storage_type == StorageType::Device(device_id),
        plan matches AllocationPlan::Bar(m) && {
            &&& m@ == begun@
            &&& m@.path == path@
            &&& m@.offset == offset
            &&& m@.size == size
            &&& m@.device_id == device_id
        },
{
}

/// A copy of an allocator announces and plans what the allocator does.
pub proof fn law_allocator_copied(
    a: DevbarAllocator,
    copy: DevbarAllocator,
    storage_type: StorageType,
    copied_type: StorageType,
    size: usize,
    plan: AllocationPlan,
    copied_plan: AllocationPlan,
)
    requires
        call_ensures(<DevbarAllocator as Clone>::clone, (&a,), copy),
        call_ensures(DevbarAllocator::host_storage_type, (&a,), storage_type),
        call_ensures(DevbarAllocator::host_storage_type, (&copy,), copied_type),
        call_ensures(DevbarAllocator::allocate, (&a, size), plan),
        call_ensures(DevbarAllocator::allocate, (&copy, size), copied_plan),
    ensures
        copy@ == a@,
        copied_type == storage_type,
        copied_plan@ == plan@,
{
}

/// The default allocator announces pinned host memory and plans it for device zero.
pub proof fn law_default_allocator(
    a: DevbarAllocator,
    storage_type: StorageType,
    size: usize,
    plan: AllocationPlan,
)
    requires
        call_ensures(<DevbarAllocator as Default>::default, (), a),
        call_ensures(DevbarAllocator::host_storage_type, (&a,), storage_type),
        call_ensures(DevbarAllocator::allocate, (&a, size), plan),
    ensures
        storage_type == StorageType::Pinned,
        plan == (AllocationPlan::Pinned { size, device_id: Some(0u32) }),
{
}

} // verus!
