# nuefi

A UEFI support library whose logic is specified and proved with Verus.

UEFI firmware hands an application tables and protocols full of function
pointers. This library holds what is read from them as plain values and
decides everything around each firmware call: which status means what,
whether a table header is valid, what bytes a device path node is, how a
console write is split, which log records get through, where an aligned
allocation starts, what a directory read hands out next.

Layout:

- `src/` is the verified library. `error` (statuses and errors), `table`
  (table headers, the system table, boot services answers, configuration
  tables), `proto` (console, graphics, device paths, files, loaded images,
  EDID, security protocols, GUIDs), `string` (UTF-16 strings and paths),
  `logger` (record filtering), `mem` (allocator arithmetic), `entry` (the
  entry point's decisions), `util` (little-endian bytes).
- `tests/` runs the library on concrete values.
- `app/` is the unverified glue: the firmware's own structures, the calls
  through their function pointers, the global tables, and the impls of the
  `log` and allocator traits.

Two outside crates are called from the library, each behind one trusted
function: `crc` for the CRC-32 of table headers, and `nuuid` for reading a
GUID's mixed-endian bytes.
