# glow_bloom

Glowing text for OpenGL with egui. The text is rasterised into a single-channel
coverage bitmap, copied into a render target a quarter of the window's size, blurred
along rows and then columns, and added onto the screen before the sharp text is laid
over it.

- `src/` is the verified library: font loading through ab_glyph (`font`), the
  bitmap and bloom-target geometry
  (`geometry`), the coverage bitmap (`raster`), the draw passes of a frame
  (`passes`), the renderer's ownership of its GPU objects (`renderer`), shader source
  assembly (`shader`) and the typewriter reveal used by one of the examples
  (`typewriter`). It makes no graphics call: it says which objects to make, use and
  delete, and what each pass draws.
- `app/` performs the graphics calls through glow, lays text out with ab_glyph, and
  holds the egui widget and the demo programs (`simple` or `typewriter` as the first
  argument runs that example instead of the demo).
