# vulkan_fractal

A Mandelbrot renderer on Vulkan (vulkano) with an interactive zoom viewer
(winit). The decisions the programs make are a verified Verus library:

- `src/device_select.rs`: choosing the physical device (extension support,
  a queue family that has graphics queues and can present to the surface,
  preference by device kind, first among equals) and the queue family.
- `src/frame.rs`: compute dispatch size, host readback buffer size, and
  turning the readback bytes into an RGBA frame (through the `image` crate).
- `src/viewer.rs`: the viewer's state machine from window and swapchain
  events to the actions of the event loop.

`app/` holds the three programs (`blue-square`, `fractal`, `zoom`): the
Vulkan and window plumbing, the shaders, and the floating-point view
parameters, which the library does not hold.
