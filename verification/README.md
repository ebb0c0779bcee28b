# patchbukkit

The bridge that lets the Pumpkin Minecraft server run Bukkit, Spigot and Paper
plugins on an embedded JVM.

- `src/` is the verified library (Verus): the plugin registry and its
  lifecycle, the dependency load order, the `plugin.yml` model, the lifecycle
  command sequence of the JVM worker, the length-prefixed buffers handed to
  Java, the name tables between Pumpkin and Bukkit values, the Bukkit event
  class lookup, and the naming rules of the generated FFI entry points.
- `app/` is the Pumpkin plugin around it: the JVM worker thread, the JNI and
  FFI calls, reading plugin JARs, YAML parsing and build-time code generation.
- `tests/` runs the library on concrete values.
