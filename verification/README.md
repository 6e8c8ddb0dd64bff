# objalloc

Bookkeeping for allocating seL4 kernel objects in a root task.

- `src/boot.rs`: the boot information the allocator reads (untyped regions,
  slot regions) and the kinds of kernel object with their sizes.
- `src/untyped.rs`: the list of untyped regions, the first-fit rule, and the
  lemmas about handing regions out.
- `src/allocator.rs`: `ObjectAllocator`, which picks untyped regions and
  destination slots and answers retype requests for the kernel.
- `src/thread.rs`: initial register values of new threads, the number of
  threads in a batch, and the order of the kernel invocations that start one.
- `app/`: the kernel invocations, memory allocation and thread start-up
  around the library.
