use std::sync::Arc;

use nvvm_export::pinned_host_buffer::{
    allocation_bound, allocation_mapped, allocation_size, allocation_start, release_next,
    AllocStep, CudaContext, DeviceCopy, DriverError, HostBlock, PinnedHostBuffer, ReleaseStep,
    CUDA_ERROR_INVALID_VALUE,
};

fn context() -> Arc<CudaContext> {
    Arc::new(CudaContext::new(0))
}

fn block<T>(memory: &mut [T]) -> HostBlock<'_, T> {
    let addr = memory.as_ptr() as usize;
    HostBlock { bound: Ok(()), addr: Ok(addr), memory }
}

#[test]
fn pinned_host_buffer_exposes_initialized_slice() {
    let ctx = context();
    let mut memory = [9_u32; 4];
    let mut host = PinnedHostBuffer::<u32>::new(&ctx, 4, block(&mut memory))
        .expect("failed to allocate pinned host");

    assert_eq!(host.len(), 4);
    assert!(!host.is_empty());
    assert_eq!(host.as_slice(), &[0, 0, 0, 0]);

    host.as_mut_slice().copy_from_slice(&[1, 2, 3, 4]);
    assert_eq!(&host[..], &[1, 2, 3, 4]);
}

#[test]
fn pinned_host_buffer_supports_empty_allocations() {
    let ctx = context();
    let mut memory: [u32; 0] = [];
    let host = PinnedHostBuffer::<u32>::new(&ctx, 0, block(&mut memory))
        .expect("failed to create empty pinned host");

    assert_eq!(host.len(), 0);
    assert!(host.is_empty());
    assert_eq!(host.as_slice(), &[]);
}

#[test]
fn a_buffer_holds_what_was_copied_into_it() {
    let ctx = context();
    let mut memory = [0_u32; 4];
    let at = memory.as_ptr() as usize;
    let mut input = PinnedHostBuffer::from_slice(&ctx, &[1_u32, 2, 3, 4], block(&mut memory))
        .expect("failed to allocate pinned input");
    assert_eq!(input.as_slice(), &[1, 2, 3, 4]);
    assert_eq!(input.num_bytes(), 16);
    assert_eq!(input.as_ptr(), at);
    assert_eq!(input.as_mut_ptr(), at);
    assert_eq!(input.context().ordinal, 0);
    assert!(Arc::ptr_eq(input.context(), &ctx));
    let shared: &[u32] = input.as_ref();
    assert_eq!(shared, &[1, 2, 3, 4]);
    let exclusive: &mut [u32] = input.as_mut();
    exclusive[0] = 7;
    input[1] = 8;
    assert_eq!(&input[..], &[7, 8, 3, 4]);
    assert_eq!(input.as_ptr(), at);
    assert_eq!(input.release(), ReleaseStep::BindContext { addr: at });
    assert_eq!(memory, [7, 8, 3, 4]);
}

#[derive(Clone, Copy, Debug, Default, PartialEq)]
struct Nothing;

impl DeviceCopy for Nothing {}

#[test]
fn elements_without_size_need_no_driver() {
    let ctx = context();
    let mut memory = [Nothing; 3];
    // The driver is not asked, so its replies play no part.
    let refused = HostBlock {
        bound: Err(DriverError(201)),
        addr: Err(DriverError(2)),
        memory: &mut memory[..],
    };
    let host = PinnedHostBuffer::<Nothing>::new(&ctx, 3, refused).expect("no driver call");
    assert_eq!(host.len(), 3);
    assert_eq!(host.num_bytes(), 0);
    assert_eq!(host.as_slice(), &[Nothing, Nothing, Nothing]);
    assert_eq!(host.as_ptr(), 1);
    assert_eq!(host.release(), ReleaseStep::Done);
}

#[test]
fn an_allocation_goes_from_step_to_step() {
    assert_eq!(allocation_start::<u64>(0), AllocStep::Done);
    assert_eq!(allocation_start::<Nothing>(5), AllocStep::Done);
    assert_eq!(allocation_start::<u64>(5), AllocStep::BindContext);
    assert_eq!(allocation_bound::<u64>(5, Ok(())), AllocStep::AllocHost { bytes: 40 });
    assert_eq!(
        allocation_bound::<u64>(5, Err(DriverError(201))),
        AllocStep::Failed(DriverError(201))
    );
    assert_eq!(
        allocation_bound::<u64>(usize::MAX, Ok(())),
        AllocStep::Failed(DriverError(CUDA_ERROR_INVALID_VALUE))
    );
    assert_eq!(allocation_mapped(Ok(4096)), AllocStep::Done);
    assert_eq!(
        allocation_mapped(Ok(0)),
        AllocStep::Failed(DriverError(CUDA_ERROR_INVALID_VALUE))
    );
    assert_eq!(allocation_mapped(Err(DriverError(2))), AllocStep::Failed(DriverError(2)));
}

#[test]
fn sizes_that_do_not_fit_are_invalid_values() {
    assert_eq!(allocation_size::<u32>(3), Ok(12));
    assert_eq!(allocation_size::<u8>(usize::MAX), Ok(usize::MAX));
    assert_eq!(allocation_size::<u16>(usize::MAX / 2), Ok(usize::MAX - 1));
    assert_eq!(allocation_size::<u16>(usize::MAX / 2 + 1), Err(DriverError(1)));
}

#[test]
fn driver_errors_are_handed_on() {
    let ctx = context();
    let mut memory = [0_u32; 2];
    let unbound = HostBlock {
        bound: Err(DriverError(201)),
        addr: Err(DriverError(2)),
        memory: &mut memory[..],
    };
    assert_eq!(
        PinnedHostBuffer::<u32>::new(&ctx, 2, unbound).err(),
        Some(DriverError(201))
    );
    let exhausted = HostBlock { bound: Ok(()), addr: Err(DriverError(2)), memory: &mut memory[..] };
    assert_eq!(
        PinnedHostBuffer::from_slice(&ctx, &[1_u32, 2], exhausted).err(),
        Some(DriverError(2))
    );
    let null = HostBlock { bound: Ok(()), addr: Ok(0), memory: &mut memory[..] };
    assert_eq!(
        PinnedHostBuffer::<u32>::new(&ctx, 2, null).err(),
        Some(DriverError(CUDA_ERROR_INVALID_VALUE))
    );
    assert_eq!(memory, [0, 0]);
}

#[test]
fn an_empty_buffer_has_an_address_that_is_not_null() {
    let ctx = context();
    let mut memory: [u64; 0] = [];
    let silent = HostBlock { bound: Ok(()), addr: Ok(0), memory: &mut memory[..] };
    let mut host = PinnedHostBuffer::<u64>::new(&ctx, 0, silent).expect("no driver call");
    assert_eq!(host.as_ptr(), std::mem::align_of::<u64>());
    assert_eq!(host.as_mut_ptr(), std::mem::align_of::<u64>());
    assert_eq!(host.num_bytes(), 0);
    assert_eq!(host.release(), ReleaseStep::Done);
}

#[test]
fn a_release_frees_though_the_context_could_not_be_bound() {
    let bind = ReleaseStep::BindContext { addr: 4096 };
    let free = ReleaseStep::FreeHost { addr: 4096 };
    assert_eq!(release_next(bind, Ok(())), (free, None));
    assert_eq!(release_next(bind, Err(DriverError(201))), (free, Some(DriverError(201))));
    assert_eq!(release_next(free, Ok(())), (ReleaseStep::Done, None));
    assert_eq!(
        release_next(free, Err(DriverError(1))),
        (ReleaseStep::Done, Some(DriverError(1)))
    );
    assert_eq!(
        release_next(ReleaseStep::Done, Err(DriverError(1))),
        (ReleaseStep::Done, None)
    );
}

#[test]
fn every_allocation_is_freed_once() {
    let ctx = context();
    let mut memory = [0_u32; 2];
    let host = PinnedHostBuffer::<u32>::new(&ctx, 2, block(&mut memory)).expect("room for two");
    let at = host.as_ptr();
    let mut step = host.release();
    let mut calls = vec![];
    while step != ReleaseStep::Done {
        calls.push(step);
        step = release_next(step, Err(DriverError(201))).0;
    }
    assert_eq!(
        calls,
        vec![ReleaseStep::BindContext { addr: at }, ReleaseStep::FreeHost { addr: at }]
    );
}
