# texel_relay

A window shows a grid of texels. Every frame a compute shader reads one image and writes
another, the written image is drawn over the whole window, and the two images change roles.

- `src/` is a library, verified with Verus, that holds what the program decides: the choice of
  the physical device and of its extensions (`device`), the wording of validation messages
  (`debug`), the first texels (`pixel`), the images, the buffers and the task graph (`image`,
  `buffer`, `graph`), the swapchain (`swapchain`), the commands of the two tasks (`compute`, `graphics`) and the state
  between frames (`render`). `laws` states what holds over any number of events and frames.
  `vulkan` lists what is taken on trust about the flag and name sets of `vulkano`; `pixel` and
  `device` do the same for `rand` and for the order of `vulkano` versions.
- `tests/` runs the library together with `rand` and `vulkano`.
- `app/` is the program around the library. It uses the bindless descriptors of
  `vulkano-taskgraph`, which are in its development version and in no release yet, and it
  compiles the shaders `shader.comp`, `shader.vert` and `shader.frag`.
