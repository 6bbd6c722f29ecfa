# stilb

Host-side logic of the stilb light baker, verified with Verus.

- `src/pacer.rs`: `SubmitPacer`, how many sample dispatches go into one compute submit.
- `src/mesh.rs`: meshes from the C interface interleaved into vertices; buffer sizes;
  the bookkeeping of a mesh on the GPU (`GpuMesh`).
- `src/texture2d.rs`: the bookkeeping of a 2D texture on the GPU.
- `src/config.rs`: the start-up configuration and the Vulkan set-up it implies.
- `src/handles.rs`: the facts about ash's handle and enum types that the above rely on.
- `app/`: the C entry points, reading meshes from C pointers, the Vulkan device calls,
  and the floating-point timing feedback of the pacer.
