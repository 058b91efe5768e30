# vbox_verified

A verified core of a VirtualBox-style virtual machine monitor, written in
Verus.

- `src/` is the library. Every function carries a contract that Verus
  proves: CPU register files and CPUID data (`cpu`), the instruction
  decoder and interpreter (`iem`), guest memory and paging (`pgm`), the
  execution, trap, I/O, device, debugger, timer and saved-state managers
  (`em`, `trpm`, `iom`, `pdm`, `dbg`, `tm`, `ssm`, `vm`), disk image formats
  (`disk`, `vdi`, `vhd`, `vhdx`, `qed`, `dmg`, `vd`, `vmdk`, `iscsi`), file
  systems (`vfs`), text and byte helpers (`text`, `bytes`) and a few
  rendering helpers (`optimization`).
- `tests/` runs the library on concrete values.
- `app/` is ordinary Rust around the library: it reads image files, encodes
  saved states with bincode, keeps the process-wide CPU table behind a lock
  and applies the timing rules that work on floating-point milliseconds.

Calls into std and outside crates whose behaviour the library relies on
(hex decoding, deflate, clocks) stand behind small trusted functions, each
documented with what its contract claims.
