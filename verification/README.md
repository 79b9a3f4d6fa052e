# theseus

Launch-settings resolution and cache seeding for game instances, verified with Verus.

- `src/` is the verified library:
  - `system_memory`: clamping a recommended heap size against the machine's memory;
  - `jvm_args`: keys of JVM arguments and merging argument lists without duplicate flags;
  - `java_recommendations`: per-instance recommendations and the priority of override,
    recommendation and global settings;
  - `config_file`: which settings file of an instance is read;
  - `checksum`, `timestamp`, `text`: SHA-256 digests and their hex comparison, marker
    file contents, strings as characters;
  - `cache_seeder`: the seeding of one cache as a state machine (`SeedSession`);
  - `ads`: the answers of the (disabled) ads plugin.
- `app/` performs the file system, network and archive work and drives the library.
- `tests/` exercises the library on concrete values.
