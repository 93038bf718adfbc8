//! Mapping the BAR aperture of a device: which system call comes next, whether the request
//! fits the aperture, and what comes of it all.
//!
//! [`BarMapping`] decides and performs nothing. Its owner does what [`BarMapping::action`]
//! says, hands the reply to [`BarMapping::step`], and goes on until the action is
//! [`BarAction::Finish`].

use vstd::prelude::*;
use vstd::string::*;

use crate::storage;
use crate::storage::{DevbarBacking, DevbarStorage, DevbarStorageView};
use crate::text;
use crate::text::decimal_string;
use crate::types::{StorageError, StorageErrorView};

verus! {

/// Whether an offset is a multiple of the page size; of a page size of zero only zero is one.
pub open spec fn page_aligned(offset: u64, page_size: u64) -> bool {
    if page_size == 0 {
        offset == 0
    } else {
        offset % page_size == 0
    }
}

/// Whether `size` bytes at `offset` may be mapped from an aperture of `aperture_size` bytes.
pub open spec fn admits(offset: u64, size: usize, aperture_size: u64, page_size: u64) -> bool {
    &&& page_aligned(offset, page_size)
    &&& offset + size <= aperture_size
}

/// The words with which messages name a request.
pub open spec fn request_text(offset: u64, size: usize) -> Seq<char> {
    "devbar request (offset "@ + text::decimal(offset as nat) + " + "@ + text::decimal(size as nat)
        + " bytes)"@
}

pub open spec fn misaligned_text(path: Seq<char>, offset: u64) -> Seq<char> {
    "devbar offset "@ + text::decimal(offset as nat)
        + " is not page-aligned; sysfs resource mmap requires a page-aligned offset of "@ + path
        + "."@
}

pub open spec fn overflow_text(path: Seq<char>, offset: u64, size: usize) -> Seq<char> {
    request_text(offset, size) + " overflows of "@ + path + "."@
}

pub open spec fn too_large_text(
    path: Seq<char>,
    offset: u64,
    size: usize,
    aperture_size: u64,
) -> Seq<char> {
    request_text(offset, size) + " exceeds aperture size ("@ + text::decimal(aperture_size as nat)
        + " bytes) of "@ + path
        + ". KVBM tier-2 capacity must be >= the GPU KV cache size; reduce DYN_KVBM_CPU_CACHE_GB."@
}

/// The error with which a request is refused, where it is: first an offset that is not
/// page-aligned, then an end that no offset can name, then an end past the aperture.
pub open spec fn refusal(
    path: Seq<char>,
    offset: u64,
    size: usize,
    aperture_size: u64,
    page_size: u64,
) -> Option<StorageErrorView> {
    if !page_aligned(offset, page_size) {
        Some(StorageErrorView::InvalidConfig(misaligned_text(path, offset)))
    } else if offset + size > u64::MAX {
        Some(StorageErrorView::InvalidConfig(overflow_text(path, offset, size)))
    } else if offset + size > aperture_size {
        Some(
            StorageErrorView::InvalidConfig(too_large_text(path, offset, size, aperture_size)),
        )
    } else {
        None
    }
}

/// What the owner of a [`BarMapping`] has to do next.
#[derive(Debug, Clone, Copy, PartialEq, Eq, Structural)]
pub enum BarAction {
    /// Say why the path cannot be a C string: it holds a NUL.
    ExplainPath,
    /// Open the file, whose path holds no NUL, for reading and writing.
    Open,
    /// Ask for the length of the open file and for the page size.
    ReadSize,
    /// Map `len` bytes of the open file at `offset`, shared, for reading and writing.
    MapFile { len: usize, offset: u64 },
    /// Close the file.
    Close,
    /// Take the result with [`BarMapping::finish`].
    Finish,
}

/// The reply to a [`BarAction`]. A text is that of the operating system's error, unless it says
/// otherwise.
#[derive(Debug, PartialEq, Eq)]
pub enum BarEvent {
    /// The text says why the path cannot be a C string.
    PathExplained(String),
    /// The file is open.
    Opened,
    /// The file could not be opened.
    OpenFailed(String),
    /// The aperture and a page have these sizes in bytes.
    SizeRead { aperture_size: u64, page_size: u64 },
    /// The length of the file could not be read.
    SizeFailed,
    /// The mapping lies at this address.
    MapReturned(u64),
    /// The mapping was not made.
    MapFailed,
    /// The file is closed; the text is that of the last error of the operating system.
    Closed(String),
}

/// What is known of the result while the file has still to be closed.
#[derive(Debug)]
enum Pending {
    SizeFailed,
    Refused(StorageError),
    MapFailed,
    MapReturned(u64),
}

#[derive(Debug)]
enum State {
    Explaining,
    Opening,
    Sizing,
    Mapping,
    Closing(Pending),
    Failed(StorageError),
    Mapped(u64),
}

/// The way from a request for a part of a BAR aperture to a storage or an error.
#[derive(Debug)]
pub struct BarMapping {
    path: String,
    offset: u64,
    size: usize,
    device_id: u32,
    state: State,
}

/// A [`BarEvent`] with its text as a sequence of characters.
pub enum BarEventView {
    PathExplained(Seq<char>),
    Opened,
    OpenFailed(Seq<char>),
    SizeRead { aperture_size: u64, page_size: u64 },
    SizeFailed,
    MapReturned(u64),
    MapFailed,
    Closed(Seq<char>),
}

impl View for BarEvent {
    type V = BarEventView;

    open spec fn view(&self) -> BarEventView {
        match self {
            BarEvent::PathExplained(why) => BarEventView::PathExplained(why@),
            BarEvent::Opened => BarEventView::Opened,
            BarEvent::OpenFailed(os_error) => BarEventView::OpenFailed(os_error@),
            BarEvent::SizeRead { aperture_size, page_size } => BarEventView::SizeRead {
                aperture_size: *aperture_size,
                page_size: *page_size,
            },
            BarEvent::SizeFailed => BarEventView::SizeFailed,
            BarEvent::MapReturned(addr) => BarEventView::MapReturned(*addr),
            BarEvent::MapFailed => BarEventView::MapFailed,
            BarEvent::Closed(os_error) => BarEventView::Closed(os_error@),
        }
    }
}

/// What is known of the result while the file has still to be closed.
pub enum PendingView {
    /// The length of the file could not be read.
    SizeFailed,
    /// The request was refused.
    Refused(StorageErrorView),
    /// The mapping was not made.
    MapFailed,
    /// The mapping lies at this address.
    MapReturned(u64),
}

/// How far a [`BarMapping`] has come.
pub enum StateView {
    Explaining,
    Opening,
    Sizing,
    Mapping,
    Closing(PendingView),
    Failed(StorageErrorView),
    Mapped(u64),
}

impl View for Pending {
    type V = PendingView;

    closed spec fn view(&self) -> PendingView {
        match self {
            Pending::SizeFailed => PendingView::SizeFailed,
            Pending::Refused(error) => PendingView::Refused(error@),
            Pending::MapFailed => PendingView::MapFailed,
            Pending::MapReturned(addr) => PendingView::MapReturned(*addr),
        }
    }
}

impl View for State {
    type V = StateView;

    closed spec fn view(&self) -> StateView {
        match self {
            State::Explaining => StateView::Explaining,
            State::Opening => StateView::Opening,
            State::Sizing => StateView::Sizing,
            State::Mapping => StateView::Mapping,
            State::Closing(pending) => StateView::Closing(pending@),
            State::Failed(error) => StateView::Failed(error@),
            State::Mapped(addr) => StateView::Mapped(*addr),
        }
    }
}

/// What closing the file leads to; `os_error` is the text of the last error by then.
pub open spec fn conclusion(
    path: Seq<char>,
    pending: PendingView,
    os_error: Seq<char>,
) -> StateView {
    match pending {
        PendingView::SizeFailed => StateView::Failed(
            StorageErrorView::AllocationFailed(
                "fstat failed for "@ + path + ": "@ + os_error,
            ),
        ),
        PendingView::Refused(error) => StateView::Failed(error),
        PendingView::MapFailed => StateView::Failed(
            StorageErrorView::AllocationFailed(
                "mmap of devbar region "@ + path + " failed: "@ + os_error,
            ),
        ),
        PendingView::MapReturned(addr) => if addr == 0 {
            StateView::Failed(StorageErrorView::AllocationFailed("mmap returned null"@))
        } else {
            StateView::Mapped(addr)
        },
    }
}

/// What there is to know of a [`BarMapping`].
pub struct BarMappingView {
    pub path: Seq<char>,
    pub offset: u64,
    pub size: usize,
    pub device_id: u32,
    pub state: StateView,
}

impl BarMappingView {
    /// Before the first action. A path that holds a NUL is never opened.
    pub open spec fn start(path: Seq<char>, offset: u64, size: usize, device_id: u32) -> Self {
        BarMappingView {
            path,
            offset,
            size,
            device_id,
            state: if path.contains('\0') {
                StateView::Explaining
            } else {
                StateView::Opening
            },
        }
    }

    pub open spec fn action(self) -> BarAction {
        match self.state {
            StateView::Explaining => BarAction::ExplainPath,
            StateView::Opening => BarAction::Open,
            StateView::Sizing => BarAction::ReadSize,
            StateView::Mapping => BarAction::MapFile { len: self.size, offset: self.offset },
            StateView::Closing(_) => BarAction::Close,
            StateView::Failed(_) => BarAction::Finish,
            StateView::Mapped(_) => BarAction::Finish,
        }
    }

    /// The state after a reply. A reply to another action than the present one changes nothing.
    pub open spec fn next_state(self, event: BarEventView) -> StateView {
        match (self.state, event) {
            (StateView::Explaining, BarEventView::PathExplained(why)) => StateView::Failed(
                StorageErrorView::InvalidConfig(why),
            ),
            (StateView::Opening, BarEventView::Opened) => StateView::Sizing,
            (StateView::Opening, BarEventView::OpenFailed(os_error)) => StateView::Failed(
                StorageErrorView::AllocationFailed(
                    "failed to open devbar region file "@ + self.path + ": "@ + os_error,
                ),
            ),
            (StateView::Sizing, BarEventView::SizeRead { aperture_size, page_size }) => match refusal(
                self.path,
                self.offset,
                self.size,
                aperture_size,
                page_size,
            ) {
                Some(error) => StateView::Closing(PendingView::Refused(error)),
                None => StateView::Mapping,
            },
            (StateView::Sizing, BarEventView::SizeFailed) => StateView::Closing(
                PendingView::SizeFailed,
            ),
            (StateView::Mapping, BarEventView::MapReturned(addr)) => StateView::Closing(
                PendingView::MapReturned(addr),
            ),
            (StateView::Mapping, BarEventView::MapFailed) => StateView::Closing(
                PendingView::MapFailed,
            ),
            (StateView::Closing(pending), BarEventView::Closed(os_error)) => conclusion(
                self.path,
                pending,
                os_error,
            ),
            (state, _) => state,
        }
    }

    pub open spec fn next(self, event: BarEventView) -> Self {
        BarMappingView { state: self.next_state(event), ..self }
    }

    /// After all of `events`, in their order.
    pub open spec fn run(self, events: Seq<BarEventView>) -> Self
        decreases events.len(),
    {
        if events.len() == 0 {
            self
        } else {
            self.run(events.drop_last()).next(events.last())
        }
    }

    /// The result, where there is one already.
    pub open spec fn outcome<H>(self) -> Option<Result<DevbarStorageView<H>, StorageErrorView>> {
        match self.state {
            StateView::Failed(error) => Some(Err(error)),
            StateView::Mapped(addr) => Some(
                Ok(
                    DevbarStorageView::fresh(
                        addr,
                        self.size,
                        self.device_id,
                        DevbarBacking::Bar,
                    ),
                ),
            ),
            _ => None,
        }
    }
}

impl View for BarMapping {
    type V = BarMappingView;

    closed spec fn view(&self) -> BarMappingView {
        BarMappingView {
            path: self.path@,
            offset: self.offset,
            size: self.size,
            device_id: self.device_id,
            state: self.state@,
        }
    }
}

/// Whether a path holds a NUL, so that it cannot be a C string.
pub fn has_nul(path: &str) -> (nul: bool)
    ensures
        nul == path@.contains('\0'),
{
    let len = path.unicode_len();
    let mut at: usize = 0;
    while at < len
        invariant
            at <= len,
            len == path@.len(),
            forall|i: int| 0 <= i < at ==> path@[i] != '\0',
        decreases len - at,
    {
        if path.get_char(at) == '\0' {
            return true;
        }
        at = at + 1;
    }
    false
}

/// Decides whether a request may be mapped from an aperture.
pub fn check_aperture(
    path: &str,
    offset: u64,
    size: usize,
    aperture_size: u64,
    page_size: u64,
) -> (res: Result<(), StorageError>)
    ensures
        res is Ok <==> admits(offset, size, aperture_size, page_size),
        match res {
            Ok(()) => refusal(path@, offset, size, aperture_size, page_size) is None,
            Err(error) => refusal(path@, offset, size, aperture_size, page_size) == Some(error@),
        },
{
    if !offset.is_multiple_of(page_size) {
        let mut text = String::from_str("devbar offset ");
        text.append(decimal_string(offset).as_str());
        text.append(" is not page-aligned; sysfs resource mmap requires a page-aligned offset of ");
        text.append(path);
        text.append(".");
        return Err(StorageError::InvalidConfig(text));
    }
    let mut text = String::from_str("devbar request (offset ");
    text.append(decimal_string(offset).as_str());
    text.append(" + ");
    text.append(decimal_string(size as u64).as_str());
    text.append(" bytes)");
    match offset.checked_add(size as u64) {
        None => {
            text.append(" overflows of ");
            text.append(path);
            text.append(".");
            Err(StorageError::InvalidConfig(text))
        },
        Some(request_end) => {
            if request_end > aperture_size {
                text.append(" exceeds aperture size (");
                text.append(decimal_string(aperture_size).as_str());
                text.append(" bytes) of ");
                text.append(path);
                text.append(
                    ". KVBM tier-2 capacity must be >= the GPU KV cache size; reduce DYN_KVBM_CPU_CACHE_GB.",
                );
                return Err(StorageError::InvalidConfig(text));
            }
            Ok(())
        },
    }
}

impl BarMapping {
    /// A mapping never lies at the null address.
    #[verifier::type_invariant]
    spec fn well_formed(self) -> bool {
        self@.state matches StateView::Mapped(addr) ==> addr != 0
    }

    /// A request for `size` bytes at `offset` of the aperture behind `path`.
    pub(crate) fn start(path: String, offset: u64, size: usize, device_id: u32) -> (mapping: Self)
        ensures
            mapping@ == BarMappingView::start(path@, offset, size, device_id),
    {
        let state = if has_nul(path.as_str()) {
            State::Explaining
        } else {
            State::Opening
        };
        BarMapping { path, offset, size, device_id, state }
    }

    /// The path of the file behind the aperture.
    pub fn path(&self) -> (path: &str)
        ensures
            path@ == self@.path,
    {
        self.path.as_str()
    }

    /// What to do next.
    pub fn action(&self) -> (action: BarAction)
        ensures
            action == self@.action(),
    {
        match &self.state {
            State::Explaining => BarAction::ExplainPath,
            State::Opening => BarAction::Open,
            State::Sizing => BarAction::ReadSize,
            State::Mapping => BarAction::MapFile { len: self.size, offset: self.offset },
            State::Closing(_) => BarAction::Close,
            State::Failed(_) => BarAction::Finish,
            State::Mapped(_) => BarAction::Finish,
        }
    }

    /// What closing the file leads to.
    fn conclude(path: &str, pending: Pending, os_error: &str) -> (state: State)
        ensures
            state@ == conclusion(path@, pending@, os_error@),
    {
        match pending {
            Pending::SizeFailed => {
                let mut text = String::from_str("fstat failed for ");
                text.append(path);
                text.append(": ");
                text.append(os_error);
                State::Failed(StorageError::AllocationFailed(text))
            },
            Pending::Refused(error) => State::Failed(error),
            Pending::MapFailed => {
                let mut text = String::from_str("mmap of devbar region ");
                text.append(path);
                text.append(" failed: ");
                text.append(os_error);
                State::Failed(StorageError::AllocationFailed(text))
            },
            Pending::MapReturned(addr) => {
                if addr == 0 {
                    State::Failed(
                        StorageError::AllocationFailed(String::from_str("mmap returned null")),
                    )
                } else {
                    State::Mapped(addr)
                }
            },
        }
    }

    /// Takes the reply to the present action. A reply to another action changes nothing.
    pub fn step(self, event: BarEvent) -> (mapping: Self)
        ensures
            mapping@ == self@.next(event@),
    {
        proof {
            use_type_invariant(&self);
        }
        let BarMapping { path, offset, size, device_id, state } = self;
        let state = match (state, event) {
            (State::Explaining, BarEvent::PathExplained(why)) => State::Failed(
                StorageError::InvalidConfig(why),
            ),
            (State::Opening, BarEvent::Opened) => State::Sizing,
            (State::Opening, BarEvent::OpenFailed(os_error)) => {
                let mut text = String::from_str("failed to open devbar region file ");
                text.append(path.as_str());
                text.append(": ");
                text.append(os_error.as_str());
                State::Failed(StorageError::AllocationFailed(text))
            },
            (State::Sizing, BarEvent::SizeRead { aperture_size, page_size }) => {
                match check_aperture(path.as_str(), offset, size, aperture_size, page_size) {
                    Err(error) => State::Closing(Pending::Refused(error)),
                    Ok(()) => State::Mapping,
                }
            },
            (State::Sizing, BarEvent::SizeFailed) => State::Closing(Pending::SizeFailed),
            (State::Mapping, BarEvent::MapReturned(addr)) => State::Closing(
                Pending::MapReturned(addr),
            ),
            (State::Mapping, BarEvent::MapFailed) => State::Closing(Pending::MapFailed),
            (State::Closing(pending), BarEvent::Closed(os_error)) => Self::conclude(
                path.as_str(),
                pending,
                os_error.as_str(),
            ),
            (state, _) => state,
        };
        BarMapping { path, offset, size, device_id, state }
    }

    /// The storage or the error, once the action is [`BarAction::Finish`]; none before.
    pub fn finish<H>(self) -> (res: Option<Result<DevbarStorage<H>, StorageError>>)
        ensures
            match res {
                Some(res) => self@.outcome::<H>() == Some(storage::storage_result(res)),
                None => self@.outcome::<H>() is None,
            },
            res is Some <==> self@.action() is Finish,
    {
        proof {
            use_type_invariant(&self);
        }
        match self.state {
            State::Failed(error) => Some(Err(error)),
            State::Mapped(addr) => {
                Some(Ok(DevbarStorage::fresh(addr, self.size, self.device_id, DevbarBacking::Bar)))
            },
            _ => None,
        }
    }
}

} // verus!
