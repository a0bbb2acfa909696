# wgpu_book

The integer and decision logic behind a set of wgpu rendering examples,
verified with Verus, and the GPU, windowing and floating-point code around it.

- `src/` — the verified library:
  - `wireframe` — node order of the sphere, torus and cylinder wireframes;
    every line joins neighbouring nodes.
  - `cube_lines` — the wireframe cube, which draws each of the cube's twelve
    edges exactly once.
  - `lit_cube`, `colored_cube`, `surface` — vertex assembly in homogeneous
    coordinates.
  - `animation` — the Julia set parameter cycle, the triangle-wave sweep of
    the iterated-function example, and the ping-pong buffers of the attractor
    simulation.
  - `particles` — the compute work-group count of the particle simulation.
  - `frame` — what happens on each window event, each surface-acquisition
    outcome, each failed redraw and each resize.
  - `pipeline` — render-pipeline options, their defaults and shader
    resolution, and the primitive topology chosen by name.
- `app/` — wgpu device and pipeline set-up, glam transforms and camera, GPU
  vertex types, the window application, the Julia set scene and the GPU
  rotation compute example.
- `tests/` — tests of the library on concrete values.
