# navier_stokes_vulkan

A 2D incompressible Navier–Stokes fluid simulation (Stam's "stable fluids")
whose solver passes run as Vulkan compute shaders over storage images.

- `src/` is the verified library: the dispatch sequence of a solver time step
  and the ping-pong bookkeeping of the velocity, pressure and dye images
  (`fluid`), grid extents and workgroup counts (`grid`), the keyboard controls
  (`controls`), per-frame and swapchain decisions (`frame`), the choice of
  physical device (`device`), and binary PPM encoding (`ppm`). Their laws (no
  pass binds the image it writes at another binding, Jacobi iterations chain,
  the displayed dye is the freshest, resets clear every image once, the
  iteration count stays in range, ...) are proof functions next to the code.
- `app/` is the program around it: the window, the Vulkan objects and
  pipelines, the float-valued parameters and push constants, and the headless
  check and frame dump. It records the library's commands into Vulkan command
  buffers.
- `tests/` exercises the library on concrete values.

The GLSL sources of the compute and display shaders (`assets/*.comp`,
`assets/display.vert`, `assets/display.frag`) are not part of this tree.
