//! Page-locked host memory for CUDA transfers.
//!
//! A [`PinnedHostBuffer`] is a block of page-locked host memory, seen as a
//! slice of initialized elements. The CUDA driver allocates and frees the
//! block; what is asked of it, and what follows from its replies, is decided
//! here. The caller performs the driver calls and hands in the replies.
//!
//! An allocation goes from step to step: [`allocation_start`] says whether the
//! driver is needed at all, [`allocation_bound`] goes on once the context is
//! bound to the thread, [`allocation_mapped`] once the driver has answered the
//! request for memory. A release does so too: [`PinnedHostBuffer::release`]
//! takes the buffer and begins, and [`release_next`] goes on behind each reply.
use std::ops::{Deref, DerefMut};
use std::sync::Arc;
use vstd::layout::{align_of, layout_for_type_is_valid, size_of};
use vstd::prelude::*;

verus! {

/// An error code of the CUDA driver.
#[derive(Clone, Copy, Debug, PartialEq, Eq, Structural)]
pub struct DriverError(pub u32);

/// The driver's code for an argument out of its range.
pub const CUDA_ERROR_INVALID_VALUE: u32 = 1;

/// The CUDA context that a buffer is allocated in, by the ordinal of its
/// device.
#[derive(Clone, Copy, Debug, PartialEq, Eq, Structural)]
pub struct CudaContext {
    /// Ordinal of the device.
    pub ordinal: usize,
}

impl CudaContext {
    /// The context of the device with this ordinal.
    pub fn new(ordinal: usize) -> (r: Self)
        ensures
            r.ordinal == ordinal,
    {
        CudaContext { ordinal }
    }
}

/// Types whose values may be moved between host and device as plain bytes.
///
/// They own nothing on the host, so a `String` is none of them.
pub trait DeviceCopy: Copy {

}

impl DeviceCopy for u8 {

}

impl DeviceCopy for u16 {

}

impl DeviceCopy for u32 {

}

impl DeviceCopy for u64 {

}

impl DeviceCopy for i8 {

}

impl DeviceCopy for i16 {

}

impl DeviceCopy for i32 {

}

impl DeviceCopy for i64 {

}

impl DeviceCopy for usize {

}

impl DeviceCopy for isize {

}

/// Whether `len` elements of `size` bytes occupy any memory. Only then does
/// the driver have anything to allocate or free.
pub open spec fn occupies_memory(len: nat, size: nat) -> bool {
    len != 0 && size != 0
}

/// What an allocation needs next.
#[derive(Clone, Copy, Debug, PartialEq, Eq, Structural)]
pub enum AllocStep {
    /// Bind the context to the calling thread.
    BindContext,
    /// Ask the driver for this many bytes of page-locked host memory.
    AllocHost {
        /// Size of the block.
        bytes: usize,
    },
    /// Nothing: the buffer can be built.
    Done,
    /// Nothing: the allocation has failed.
    Failed(DriverError),
}

/// The first step of an allocation of `len` elements.
pub open spec fn start_step(len: nat, size: nat) -> AllocStep {
    if occupies_memory(len, size) {
        AllocStep::BindContext
    } else {
        AllocStep::Done
    }
}

/// The step behind the binding of the context.
pub open spec fn bound_step(len: nat, size: nat, bound: Result<(), DriverError>) -> AllocStep {
    match bound {
        Err(e) => AllocStep::Failed(e),
        Ok(_) => if len * size <= usize::MAX {
            AllocStep::AllocHost { bytes: (len * size) as usize }
        } else {
            AllocStep::Failed(DriverError(CUDA_ERROR_INVALID_VALUE))
        },
    }
}

/// The step behind the driver's answer, where address 0 is the null pointer.
pub open spec fn mapped_step(block: Result<usize, DriverError>) -> AllocStep {
    match block {
        Err(e) => AllocStep::Failed(e),
        Ok(addr) => if addr == 0 {
            AllocStep::Failed(DriverError(CUDA_ERROR_INVALID_VALUE))
        } else {
            AllocStep::Done
        },
    }
}

/// The step in which an allocation ends, `Done` or `Failed`, if the driver
/// answers with `bound` and `block` where it is asked.
pub open spec fn last_step(
    len: nat,
    size: nat,
    bound: Result<(), DriverError>,
    block: Result<usize, DriverError>,
) -> AllocStep {
    match start_step(len, size) {
        AllocStep::BindContext => match bound_step(len, size, bound) {
            AllocStep::AllocHost { bytes } => mapped_step(block),
            step => step,
        },
        step => step,
    }
}

/// The size in bytes of `len` elements, or `CUDA_ERROR_INVALID_VALUE` where it
/// does not fit.
pub fn allocation_size<T>(len: usize) -> (r: Result<usize, DriverError>)
    ensures
        r == if len * size_of::<T>() <= usize::MAX {
            Ok::<usize, DriverError>((len * size_of::<T>()) as usize)
        } else {
            Err::<usize, DriverError>(DriverError(CUDA_ERROR_INVALID_VALUE))
        },
{
    match len.checked_mul(core::mem::size_of::<T>()) {
        Some(bytes) => Ok(bytes),
        None => Err(DriverError(CUDA_ERROR_INVALID_VALUE)),
    }
}

/// Begins the allocation of `len` elements: without any memory to occupy it is
/// done at once.
pub fn allocation_start<T>(len: usize) -> (r: AllocStep)
    ensures
        r == start_step(len as nat, size_of::<T>()),
{
    if len == 0 || core::mem::size_of::<T>() == 0 {
        AllocStep::Done
    } else {
        AllocStep::BindContext
    }
}

/// Goes on behind the binding of the context, with what the driver answered.
pub fn allocation_bound<T>(len: usize, bound: Result<(), DriverError>) -> (r: AllocStep)
    ensures
        r == bound_step(len as nat, size_of::<T>(), bound),
{
    match bound {
        Err(e) => AllocStep::Failed(e),
        Ok(_) => match allocation_size::<T>(len) {
            Ok(bytes) => AllocStep::AllocHost { bytes },
            Err(e) => AllocStep::Failed(e),
        },
    }
}

/// Goes on behind the request for memory, with the address that the driver
/// answered: a null pointer is an invalid value.
pub fn allocation_mapped(block: Result<usize, DriverError>) -> (r: AllocStep)
    ensures
        r == mapped_step(block),
{
    match block {
        Err(e) => AllocStep::Failed(e),
        Ok(addr) => if addr == 0 {
            AllocStep::Failed(DriverError(CUDA_ERROR_INVALID_VALUE))
        } else {
            AllocStep::Done
        },
    }
}

/// What a release needs next.
#[derive(Clone, Copy, Debug, PartialEq, Eq, Structural)]
pub enum ReleaseStep {
    /// Bind the context to the calling thread.
    BindContext {
        /// Address of the block that is to be freed.
        addr: usize,
    },
    /// Have the driver free this block.
    FreeHost {
        /// Address of the block.
        addr: usize,
    },
    /// Nothing: the buffer is gone.
    Done,
}

/// The first step of the release of `len` elements at `addr`.
pub open spec fn release_step(len: nat, size: nat, addr: usize) -> ReleaseStep {
    if occupies_memory(len, size) {
        ReleaseStep::BindContext { addr }
    } else {
        ReleaseStep::Done
    }
}

/// The step behind a step of a release, whatever the driver answered: a context
/// that could not be bound does not keep the memory from being freed.
pub open spec fn step_behind(step: ReleaseStep) -> ReleaseStep {
    match step {
        ReleaseStep::BindContext { addr } => ReleaseStep::FreeHost { addr },
        ReleaseStep::FreeHost { addr: _ } => ReleaseStep::Done,
        ReleaseStep::Done => ReleaseStep::Done,
    }
}

/// The error to record of the driver's answer to a step of a release.
pub open spec fn error_of(step: ReleaseStep, reply: Result<(), DriverError>) -> Option<
    DriverError,
> {
    match reply {
        Err(e) => if step is Done {
            None
        } else {
            Some(e)
        },
        Ok(_) => None,
    }
}

/// Goes on behind a step of a release, with what the driver answered: gives the
/// next step, and the error to record in the context.
pub fn release_next(step: ReleaseStep, reply: Result<(), DriverError>) -> (r: (
    ReleaseStep,
    Option<DriverError>,
))
    ensures
        r == (step_behind(step), error_of(step, reply)),
{
    let error = match reply {
        Err(e) => Some(e),
        Ok(_) => None,
    };
    match step {
        ReleaseStep::BindContext { addr } => (ReleaseStep::FreeHost { addr }, error),
        ReleaseStep::FreeHost { addr: _ } => (ReleaseStep::Done, error),
        ReleaseStep::Done => (ReleaseStep::Done, None),
    }
}

/// The replies of the driver to one allocation, and the memory that came of it.
///
/// A reply to a call that the allocation did not come to is ignored.
pub struct HostBlock<'m, T> {
    /// The reply to the binding of the context.
    pub bound: Result<(), DriverError>,
    /// The reply to the request for memory: the address of the block.
    pub addr: Result<usize, DriverError>,
    /// The elements in the block.
    pub memory: &'m mut [T],
}

impl<'m, T> HostBlock<'m, T> {
    /// The step in which an allocation of `len` elements with these replies
    /// ends.
    pub open spec fn ends_in(self, len: nat) -> AllocStep {
        last_step(len, size_of::<T>(), self.bound, self.addr)
    }

    /// The address of a buffer of `len` elements with these replies: where it
    /// occupies memory, that of the block, and otherwise the lowest one that is
    /// well aligned and not null.
    pub open spec fn address(self, len: nat) -> usize {
        if occupies_memory(len, size_of::<T>()) {
            self.addr->Ok_0
        } else {
            align_of::<T>() as usize
        }
    }

    /// Whether the block is one that replies to an allocation of `len`
    /// elements can bring: where they let it succeed, there is room for the
    /// elements.
    pub open spec fn answers(self, len: nat) -> bool {
        self.ends_in(len) is Done ==> self.memory@.len() == len
    }
}

/// An address in host memory that is not null.
struct HostAddress {
    value: usize,
}

impl HostAddress {
    /// The address.
    spec fn get(&self) -> usize {
        self.value
    }

    #[verifier::type_invariant]
    spec fn not_null(&self) -> bool {
        self.value != 0
    }

    /// The address `value`, unless it is null.
    fn new(value: usize) -> (r: Option<Self>)
        ensures
            match r {
                Some(a) => value != 0 && a.get() == value,
                None => value == 0,
            },
    {
        if value == 0 {
            None
        } else {
            Some(HostAddress { value })
        }
    }

    /// The lowest address that is well aligned for a `T` and not null. Nothing
    /// is read or written there.
    fn dangling<T>() -> (r: Self)
        ensures
            r.get() == align_of::<T>() as usize,
    {
        layout_for_type_is_valid::<T>();
        HostAddress { value: core::mem::align_of::<T>() }
    }

    /// The address as a number.
    fn value(&self) -> (r: usize)
        ensures
            r == self.get(),
            r != 0,
    {
        proof {
            use_type_invariant(self);
        }
        self.value
    }
}

/// A page-locked host buffer.
///
/// The buffer is initialized and exposes ordinary slices. Whoever drops it goes
/// through the steps that [`PinnedHostBuffer::release`] begins.
pub struct PinnedHostBuffer<'m, T: DeviceCopy> {
    addr: HostAddress,
    memory: &'m mut [T],
    ctx: Arc<CudaContext>,
}

impl<'m, T: DeviceCopy> View for PinnedHostBuffer<'m, T> {
    type V = Seq<T>;

    /// The elements of the buffer.
    closed spec fn view(&self) -> Seq<T> {
        self.memory@
    }
}

impl<'m, T: DeviceCopy> PinnedHostBuffer<'m, T> {
    /// The host address of the first element.
    pub closed spec fn address(&self) -> usize {
        self.addr.get()
    }

    /// The context that the buffer was allocated in.
    pub closed spec fn spec_context(&self) -> CudaContext {
        *self.ctx
    }

    /// What holds of every buffer: its address is not null, and its size in
    /// bytes fits in a `usize`.
    pub open spec fn well_formed(&self) -> bool {
        self.address() != 0 && self@.len() * size_of::<T>() <= usize::MAX
    }

    /// Allocates a pinned host buffer of `len` elements and fills it with
    /// `T::default()`.
    pub fn new(ctx: &Arc<CudaContext>, len: usize, block: HostBlock<'m, T>) -> (r: Result<
        Self,
        DriverError,
    >) where T: Default
        requires
            block.answers(len as nat),
        ensures
            match block.ends_in(len as nat) {
                AllocStep::Failed(e) => r == Err::<Self, DriverError>(e),
                _ => {
                    &&& r is Ok
                    &&& r->Ok_0.well_formed()
                    &&& r->Ok_0@.len() == len
                    &&& forall|i: int|
                        0 <= i < len ==> call_ensures(T::default, (), #[trigger] r->Ok_0@[i])
                    &&& r->Ok_0.address() == block.address(len as nat)
                    &&& r->Ok_0.spec_context() == **ctx
                },
            },
    {
        let buffer = Self::allocate(ctx, len, block)?;
        let PinnedHostBuffer { addr, memory, ctx: own } = buffer;
        let mut i: usize = 0;
        while i < len
            invariant
                i <= len == memory@.len(),
                forall|j: int| 0 <= j < i ==> call_ensures(T::default, (), #[trigger] memory@[j]),
            decreases len - i,
        {
            memory[i] = T::default();
            i += 1;
        }
        Ok(PinnedHostBuffer { addr, memory, ctx: own })
    }

    /// Allocates a pinned host buffer and copies `data` into it.
    pub fn from_slice(ctx: &Arc<CudaContext>, data: &[T], block: HostBlock<'m, T>) -> (r: Result<
        Self,
        DriverError,
    >)
        requires
            block.answers(data@.len()),
        ensures
            match block.ends_in(data@.len()) {
                AllocStep::Failed(e) => r == Err::<Self, DriverError>(e),
                _ => {
                    &&& r is Ok
                    &&& r->Ok_0.well_formed()
                    &&& r->Ok_0@ == data@
                    &&& r->Ok_0.address() == block.address(data@.len())
                    &&& r->Ok_0.spec_context() == **ctx
                },
            },
    {
        let buffer = Self::allocate(ctx, data.len(), block)?;
        let PinnedHostBuffer { addr, memory, ctx: own } = buffer;
        let mut i: usize = 0;
        while i < data.len()
            invariant
                i <= data@.len() == memory@.len(),
                forall|j: int| 0 <= j < i ==> memory@[j] == data@[j],
            decreases data.len() - i,
        {
            memory[i] = data[i];
            i += 1;
        }
        assert(memory@ =~= data@);
        Ok(PinnedHostBuffer { addr, memory, ctx: own })
    }

    /// The buffer that the driver's replies make, with whatever its memory
    /// holds.
    fn allocate(ctx: &Arc<CudaContext>, len: usize, block: HostBlock<'m, T>) -> (r: Result<
        Self,
        DriverError,
    >)
        requires
            block.answers(len as nat),
        ensures
            match block.ends_in(len as nat) {
                AllocStep::Failed(e) => r == Err::<Self, DriverError>(e),
                _ => {
                    &&& r is Ok
                    &&& r->Ok_0.well_formed()
                    &&& r->Ok_0@.len() == len
                    &&& r->Ok_0.address() == block.address(len as nat)
                    &&& r->Ok_0.spec_context() == **ctx
                },
            },
    {
        let addr = match allocation_start::<T>(len) {
            AllocStep::BindContext => {
                if let AllocStep::Failed(e) = allocation_bound::<T>(len, block.bound) {
                    return Err(e);
                }
                if let AllocStep::Failed(e) = allocation_mapped(block.addr) {
                    return Err(e);
                }
                match block.addr {
                    Ok(addr) => match HostAddress::new(addr) {
                        Some(addr) => addr,
                        None => {
                            return Err(DriverError(CUDA_ERROR_INVALID_VALUE));
                        },
                    },
                    Err(e) => {
                        return Err(e);
                    },
                }
            },
            _ => HostAddress::dangling::<T>(),
        };
        proof {
            let size = size_of::<T>();
            assert(len == 0 || size == 0 ==> len * size == 0) by (nonlinear_arith);
            use_type_invariant(&addr);
        }
        Ok(PinnedHostBuffer { addr, memory: block.memory, ctx: ctx.clone() })
    }

    /// Number of elements in the buffer.
    pub fn len(&self) -> (r: usize)
        ensures
            r == self@.len(),
    {
        self.memory.len()
    }

    /// Whether the buffer contains no elements.
    pub fn is_empty(&self) -> (r: bool)
        ensures
            r == (self@.len() == 0),
    {
        self.memory.len() == 0
    }

    /// Total size in bytes.
    pub fn num_bytes(&self) -> (r: usize)
        requires
            self.well_formed(),
        ensures
            r == self@.len() * size_of::<T>(),
    {
        self.memory.len() * core::mem::size_of::<T>()
    }

    /// The CUDA context used to allocate this buffer.
    pub fn context(&self) -> (r: &Arc<CudaContext>)
        ensures
            **r == self.spec_context(),
    {
        &self.ctx
    }

    /// The address of the host memory.
    pub fn as_ptr(&self) -> (r: usize)
        ensures
            r == self.address(),
            r != 0,
    {
        self.addr.value()
    }

    /// The address of the host memory, for writing.
    pub fn as_mut_ptr(&mut self) -> (r: usize)
        ensures
            r == old(self).address(),
            r != 0,
            *final(self) == *old(self),
    {
        self.addr.value()
    }

    /// The buffer as a host slice.
    pub fn as_slice(&self) -> (r: &[T])
        ensures
            r@ == self@,
    {
        &*self.memory
    }

    /// The buffer as a mutable host slice.
    pub fn as_mut_slice(&mut self) -> (r: &mut [T])
        ensures
            r@ == old(self)@,
            final(self)@ == final(r)@,
            final(self).address() == old(self).address(),
            final(self).spec_context() == old(self).spec_context(),
    {
        &mut *self.memory
    }

    /// Takes the buffer and begins its release: gives the first step, which is
    /// already the last one where there is no memory to free.
    pub fn release(self) -> (r: ReleaseStep)
        ensures
            r == release_step(self@.len(), size_of::<T>(), self.address()),
    {
        if self.memory.len() != 0 && core::mem::size_of::<T>() != 0 {
            ReleaseStep::BindContext { addr: self.addr.value() }
        } else {
            ReleaseStep::Done
        }
    }
}

impl<'m, T: DeviceCopy> AsRef<[T]> for PinnedHostBuffer<'m, T> {
    fn as_ref(&self) -> (r: &[T])
        ensures
            r@ == self@,
    {
        self.as_slice()
    }
}

impl<'m, T: DeviceCopy> AsMut<[T]> for PinnedHostBuffer<'m, T> {
    fn as_mut(&mut self) -> (r: &mut [T])
        ensures
            r@ == old(self)@,
            final(self)@ == final(r)@,
            final(self).address() == old(self).address(),
            final(self).spec_context() == old(self).spec_context(),
    {
        self.as_mut_slice()
    }
}

impl<'m, T: DeviceCopy> Deref for PinnedHostBuffer<'m, T> {
    type Target = [T];

    fn deref(&self) -> (r: &[T])
        ensures
            r@ == self@,
    {
        self.as_slice()
    }
}

impl<'m, T: DeviceCopy> DerefMut for PinnedHostBuffer<'m, T> {
    fn deref_mut(&mut self) -> (r: &mut [T])
        ensures
            r@ == old(self)@,
            final(self)@ == final(r)@,
            final(self).address() == old(self).address(),
            final(self).spec_context() == old(self).spec_context(),
    {
        self.as_mut_slice()
    }
}

/// The driver calls of an allocation that succeeds.
pub open spec fn alloc_calls(len: nat, size: nat) -> Seq<AllocStep> {
    match start_step(len, size) {
        AllocStep::BindContext => seq![
            AllocStep::BindContext,
            bound_step(len, size, Ok(())),
        ],
        _ => Seq::empty(),
    }
}

/// The driver calls of a release from a step on.
pub open spec fn release_calls(step: ReleaseStep) -> Seq<ReleaseStep>
    decreases
            (match step {
                ReleaseStep::BindContext { addr: _ } => 2int,
                ReleaseStep::FreeHost { addr: _ } => 1int,
                ReleaseStep::Done => 0int,
            }),
{
    if step is Done {
        Seq::empty()
    } else {
        seq![step] + release_calls(step_behind(step))
    }
}

/// The errors that a release records from a step on, where the driver answers
/// its calls with `replies`, in turn.
pub open spec fn release_errors(step: ReleaseStep, replies: Seq<Result<(), DriverError>>) -> Seq<
    Option<DriverError>,
>
    decreases
            (match step {
                ReleaseStep::BindContext { addr: _ } => 2int,
                ReleaseStep::FreeHost { addr: _ } => 1int,
                ReleaseStep::Done => 0int,
            }),
{
    if step is Done {
        Seq::empty()
    } else {
        seq![error_of(step, replies[0])] + release_errors(step_behind(step), replies.skip(1))
    }
}

/// A release binds the context and then frees the block at the buffer's
/// address, each once, and frees it though the binding failed. The errors of
/// both are recorded. Where the buffer occupies no memory, the driver is not
/// called and nothing is recorded.
pub proof fn law_release_binds_and_frees(
    len: nat,
    size: nat,
    addr: usize,
    bound: Result<(), DriverError>,
    freed: Result<(), DriverError>,
)
    ensures
        ({
            let first = release_step(len, size, addr);
            let calls = release_calls(first);
            let errors = release_errors(first, seq![bound, freed]);
            if occupies_memory(len, size) {
                &&& calls == seq![
                    ReleaseStep::BindContext { addr },
                    ReleaseStep::FreeHost { addr },
                ]
                &&& errors == seq![bound.err(), freed.err()]
            } else {
                calls.len() == 0 && errors.len() == 0
            }
        }),
{
    reveal_with_fuel(release_calls, 3);
    reveal_with_fuel(release_errors, 3);
    if occupies_memory(len, size) {
        let replies = seq![bound, freed];
        assert(replies.skip(1)[0] == freed);
        assert(release_calls(release_step(len, size, addr)) =~= seq![
            ReleaseStep::BindContext { addr },
            ReleaseStep::FreeHost { addr },
        ]);
        assert(release_errors(release_step(len, size, addr), replies) =~= seq![
            bound.err(),
            freed.err(),
        ]);
    }
}

/// Every block that an allocation gets from the driver is freed by exactly one
/// call, which names its address, and nothing is freed that was not allocated.
pub proof fn law_freed_iff_allocated(
    len: nat,
    size: nat,
    bound: Result<(), DriverError>,
    block: Result<usize, DriverError>,
)
    requires
        last_step(len, size, bound, block) is Done,
    ensures
        if occupies_memory(len, size) {
            &&& bound is Ok && block is Ok && block->Ok_0 != 0
            &&& alloc_calls(len, size) == seq![
                AllocStep::BindContext,
                AllocStep::AllocHost { bytes: (len * size) as usize },
            ]
            &&& release_calls(release_step(len, size, block->Ok_0)) == seq![
                ReleaseStep::BindContext { addr: block->Ok_0 },
                ReleaseStep::FreeHost { addr: block->Ok_0 },
            ]
        } else {
            &&& alloc_calls(len, size).len() == 0
            &&& forall|addr: usize| release_calls(#[trigger] release_step(len, size, addr)).len()
                == 0
        },
{
    if occupies_memory(len, size) {
        law_release_binds_and_frees(len, size, block->Ok_0, Ok(()), Ok(()));
    }
}

/// A size that does not fit in a `usize` is refused before the driver is asked
/// for memory, whatever the driver would answer.
pub proof fn law_oversized_allocation_is_refused(
    len: nat,
    size: nat,
    block: Result<usize, DriverError>,
)
    requires
        len * size > usize::MAX,
    ensures
        last_step(len, size, Ok(()), block) == AllocStep::Failed(
            DriverError(CUDA_ERROR_INVALID_VALUE),
        ),
{
    assert(len != 0 && size != 0) by (nonlinear_arith)
        requires
            len * size > usize::MAX,
    ;
}

/// What an allocation comes to: without memory to occupy it is done without the
/// driver. Otherwise the context is bound first, then as many bytes are asked for
/// as the elements have, and it is done with an address that is not null. An error
/// of the driver is passed on; a size that does not fit and a null pointer are
/// invalid values, which is code 1.
pub proof fn law_allocation_steps(
    len: nat,
    size: nat,
    bound: Result<(), DriverError>,
    block: Result<usize, DriverError>,
)
    ensures
        len == 0 || size == 0 ==> start_step(len, size) is Done && last_step(
            len,
            size,
            bound,
            block,
        ) is Done,
        len != 0 && size != 0 ==> start_step(len, size) is BindContext && last_step(
            len,
            size,
            bound,
            block,
        ) == (match (bound, block) {
            (Err(e), _) => AllocStep::Failed(e),
            (Ok(_), _) if len * size > usize::MAX => AllocStep::Failed(DriverError(1)),
            (Ok(_), Err(e)) => AllocStep::Failed(e),
            (Ok(_), Ok(addr)) => if addr == 0 {
                AllocStep::Failed(DriverError(1))
            } else {
                AllocStep::Done
            },
        }),
        bound_step(len, size, bound) == (match bound {
            Err(e) => AllocStep::Failed(e),
            Ok(_) => if len * size > usize::MAX {
                AllocStep::Failed(DriverError(1))
            } else {
                AllocStep::AllocHost { bytes: (len * size) as usize }
            },
        }),
        mapped_step(block) == (match block {
            Err(e) => AllocStep::Failed(e),
            Ok(addr) => if addr == 0 {
                AllocStep::Failed(DriverError(1))
            } else {
                AllocStep::Done
            },
        }),
{
}

/// What a release comes to: where the elements occupy memory the context is bound,
/// and then, whatever came of that, the block is freed at the same address. Every
/// error that the driver answers with is recorded.
pub proof fn law_release_steps(
    len: nat,
    size: nat,
    addr: usize,
    reply: Result<(), DriverError>,
    error: DriverError,
)
    ensures
        occupies_memory(len, size) <==> len != 0 && size != 0,
        len != 0 && size != 0 ==> release_step(len, size, addr) == (ReleaseStep::BindContext {
            addr,
        }),
        len == 0 || size == 0 ==> release_step(len, size, addr) is Done,
        step_behind(ReleaseStep::BindContext { addr }) == (ReleaseStep::FreeHost { addr }),
        step_behind(ReleaseStep::FreeHost { addr }) is Done,
        step_behind(ReleaseStep::Done) is Done,
        error_of(ReleaseStep::BindContext { addr }, Err(error)) == Some(error),
        error_of(ReleaseStep::FreeHost { addr }, Err(error)) == Some(error),
        error_of(ReleaseStep::BindContext { addr }, Ok(())) is None,
        error_of(ReleaseStep::FreeHost { addr }, Ok(())) is None,
        error_of(ReleaseStep::Done, reply) is None,
{
}

/// A buffer that occupies memory has the address of its block, and any other one
/// that is well aligned.
pub proof fn law_addresses<'m, T>(block: HostBlock<'m, T>, len: nat)
    ensures
        len != 0 && size_of::<T>() != 0 ==> (block.addr matches Ok(addr) ==> block.address(len)
            == addr),
        len == 0 || size_of::<T>() == 0 ==> block.address(len) == align_of::<T>() as usize,
        block.ends_in(len) == last_step(len, size_of::<T>(), block.bound, block.addr),
        block.ends_in(len) is Done && block.answers(len) ==> old(block.memory)@.len() == len,
        !(block.ends_in(len) is Done) ==> block.answers(len),
        old(block.memory)@.len() == len ==> block.answers(len),
{
}

/// A buffer is in order if its address is not null and its size in bytes fits.
pub proof fn law_well_formed_buffers<'m, T: DeviceCopy>(buffer: PinnedHostBuffer<'m, T>)
    ensures
        buffer.well_formed() <==> buffer.address() != 0 && buffer@.len() * size_of::<T>()
            <= usize::MAX,
{
}

} // verus!
