# rendy-wsi

Window system integration for rendy: binding a window's surface to a
device as a render target with a swapchain.

- `src/` is the verified library (Verus):
  - `format.rs` — describing surface formats through gfx-hal and choosing
    the ideal one (uncompressed, then sRGB, then most bits; the last of
    equals).
  - `swapchain.rs` — which swapchain requests are refused, which are
    faults, and the configuration of an accepted one.
  - `target.rs` — surfaces, targets and acquired images: ownership, the
    recreation of a target's swapchain, disposal.
- `app/` holds the graphics objects (generic over the gfx-hal backend) and
  performs the device calls that the library decides on.
- `tests/` exercises the library on concrete values.
