# krun

The device logic of a microVM monitor, as a verified library.

`src/` holds the devices, their queues' state machines, the configuration builders and the
formats, each with a contract that Verus proves. `app/` holds what does I/O around it: workers,
files, sockets, ioctls and the environment. `tests/` runs the library on concrete values.

| Module | What it is |
| --- | --- |
| `api` | Configuration of a VM, from builders to what is ready to run |
| `balloon`, `cpu`, `msb_metrics` | Memory balloon, CPU and metrics devices |
| `block` | Block device: requests, write-back, the I/O ring, overlapped I/O |
| `net` | Network device: flows, queues, frames, backends |
| `vsock` | Socket packets, stream and datagram backends |
| `fs` | A shared directory: inodes, handles, attributes |
| `pci`, `vfio_pci` | PCI bus, root port, assigned devices, MSI-X |
| `hvf` | Virtual CPUs on Apple silicon |
| `metrics`, `performance` | Counters, latency profiles, experiment selection |
| `epoll`, `eventfd` | Readiness and wake events |
| `guest_memory`, `descriptor`, `bytes`, `text`, `layout`, `config_space`, `host`, `activation` | Shared ground |
