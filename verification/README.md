# alkahest_shadowkeep

The core of a renderer and inspector for Shadowkeep-era packages, written in
Verus: what the packages store, how it is decoded, which steps draw a frame, and
what is recorded about it. Verus proves the contracts of the functions under
`src/`, except those of the few wrappers named below.

- `src/` is the verified library. Floats are held as their bit patterns, tags as
  their 32-bit hashes. Calls into `tiger-pkg`, `hashbrown`, `smallvec`, `sha2`
  and `ddsfile` stand behind small wrappers whose contracts are trusted.
- `app/` holds what needs packages on disk, files, threads, float arithmetic or
  a device.
- `tests/` runs the library.

| modules | what they hold |
| --- | --- |
| `text`, `bytes`, `order`, `single` | numerals, little-endian words, orders, float patterns |
| `tag`, `tag_map`, `index_list` | package tags and the collections of other crates |
| `stored`, `geometry`, `technique`, `map`, `sequencer`, `cui`, `bootstrap` | stored records |
| `channels`, `channel_table`, `externs`, `bytecode`, `constants`, `reads` | expression programs and what they read |
| `texture`, `dds` | texture uploads |
| `statics`, `instances`, `rigid`, `light` | what is drawn of meshes, models and lights |
| `pipelines`, `globals`, `layouts`, `render_globals` | shared resources |
| `steps`, `submit`, `overlays`, `inputs` | the plan of a frame and its shader inputs |
| `handle`, `manager`, `pool`, `swapchain` | assets, command lists, presentation |
| `pixels`, `provenance`, `dependency`, `records`, `sky`, `ledger` | captures and reports |
