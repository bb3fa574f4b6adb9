# portal_scenes

A verified library for a small portal ray tracer, and a nannou viewer built on it.

`src/` (verified with Verus):

- `bounded` — lists capped at a fixed capacity, fixed blocks of slots filled
  from the front, and the padded layout the renderer reads.
- `scene`, `scene_buffer` — a scene's planes, ellipses, portal pairs and cubes,
  each kind capped at its maximum, and its packed form.
- `portal` — portal pairs, partners, and the order in which a camera move is
  tested against portals.
- `nearest` — the running-best scan that picks what a ray hits.
- `debug_ray` — the bounce loop of a debug ray and the colour of each bounce.
- `screen` — how a segment is clipped to the screen, and the sampling searches
  behind it.
- `navigation` — which scene is on screen and the arrow/number keys.
- `controls` — movement and roll keys, and which viewport holds the mouse.
- `builder` — collecting objects for a scene and building it.

`app/` is the viewer: window, GPU upload, egui panel, and the floating-point
geometry (intersections, portal transforms, camera orientation).
