# capsa

A small virtual machine monitor for Linux guests on KVM, whose configuration, boot-time
and device-model logic is verified with Verus.

- `src/` is the verified library: VM configuration and kernel command lines, network
  policies, the x86-64 boot layout (e820 map, MP table, page tables, GDT, registers), the
  virtio-mmio transport, virtqueue processing over guest memory (descriptor chains and the
  available and used rings), the FUSE protocol of the shared
  directory device (request decoding, replies, inode and handle tables), the socket
  device and its host-side bridge, the CMOS clock, the vCPU run-loop decisions, and the
  command line's argument checks and reports.
- `tests/` exercises the library on concrete values.
- `app/` is the `capsa` command: argument parsing, the KVM ioctls, guest memory, the
  serial port, threads and the terminal, driven by the library's decisions.
