# bevy_pmx

Reading PMX models (the MikuMikuDance model format) and the ZIP packages they are shipped in,
with the logic verified by Verus.

- `src/` is the verified library: the PMX binary parser and document model, the runtime model
  built from a document (geometry, primitives, material bindings, bone/morph/physics records),
  ZIP entry-name decoding and normalization, entry lookup in archive listings, the texture
  resolver, sub-asset labels and loader decisions. Laws that span functions are public proof
  functions (`lemma_*`).
- Disk and archive access is left to the caller: functions take an archive's bytes, its
  listing, or the answers to the questions the resolver asks (see `resolver` and
  `source::walk`).
- `app/` is the Bevy integration: the asset types with their handles, the asset loader that
  reads files, and the plugin.
- Floating-point values are kept as IEEE-754 bit patterns (`u32`).
