# kernel

The logic of an embedded operating system kernel, written in Verus: each
function carries a contract that Verus proves, and the properties that span
several functions stand as proof functions beside them.

## Layout

- `src/hil/`: hardware interface layers (time, UART, SPI, GPIO, USB, wifi,
  encryption and others); the tick arithmetic of `time` is proved.
- `src/memory_management/`: pointers, slices, regions, kernel and process
  memory configurations, and a static allocator, with the translation
  between physical and virtual addresses.
- `src/memory_manager.rs`, `src/memop.rs`: where process memory goes, and
  the memory system calls.
- `src/process.rs`, `src/process_array.rs`, `src/introspection.rs`: the model
  of a process, the process table and the lookups in it.
- `src/process_binary.rs`, `src/process_checker.rs`, `src/process_loading.rs`,
  `src/process_load_utilities.rs`: finding binaries in flash, checking their
  credentials, placing new binaries and loading them into processes.
- `src/ipc.rs`, `src/ikc.rs`, `src/net/`: inter-process and inter-kernel
  communication, and the table of bound UDP ports.
- `src/platform/`: chips, memory protection units and other platform
  interfaces.
- `tests/`: tests on concrete values.

Work that happens outside the kernel's logic (reading headers in flash,
creating processes, running a hash or a checksum) is done by the caller:
the functions here take what it returned and decide what comes next.
