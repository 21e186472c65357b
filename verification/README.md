# spa

Hardware models of the Nintendo DS, written in Verus: each part of the
system is a Rust type whose operations carry contracts that Verus proves.

- `src/` is the verified library: main, shared and video memory and the two
  processors' memory maps (`memory`, `bus9`, `bus7`, `video::memory`), the
  ARM9's caches, tightly coupled memory and system coprocessor (`cache`,
  `internal`, `cp15`), DMA, interrupts, timing (`clock`), the math
  accelerators, sound, the SPI devices (firmware, power management, touch
  screen), the real-time clock, Wi-Fi registers, inter-processor
  communication, the game card with its commands, KEY1 and KEY2 encryption and save
  chips, and the 3D engine: its command FIFO, its matrix unit and
  fixed-point vectors and matrices (`video::video3d::matrix`, `math`),
  clipping against the view volume and face culling (`clip`), texel
  lookup and colour blending, and the rasterizer (`video::video3d::raster`
  finds where polygons cross each line, `video::video3d::render` draws
  opaque and translucent polygons into the frame, marks edges and blends
  fog), with fixed-point values held as integers.
- `tests/` runs the library on concrete values.
- `app/` is the host side: files, threads and channels, the loops that move
  data over the buses, and the outside cipher that encrypts the card's secure
  area.
