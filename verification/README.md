# objc_extras

The decision logic of a Binary Ninja plugin for Objective-C binaries, verified with Verus.

- `src/remove_memory_management.rs`: which low level IL instructions to replace so that
  calls to `objc_retain`, `objc_release`, `objc_autorelease` and their relatives disappear.
- `src/type_propagation/`: which calls get a more precise return type: allocation calls
  with a fixed class, `[super init…]`, and `[self initWith…]` on a receiver of known type.
- `src/util.rs`: Objective-C symbol names, call matching and constant pointer resolution.
- `src/activity.rs`, `src/plugin.rs`: the activities' configurations and their places in
  Binary Ninja's workflows.
- `src/mlil.rs`, `src/llil.rs`, `src/types.rs`: plain-value models of the IL and types;
  `src/lookup.rs`: the questions the passes ask of the binary database, and their models.

`app/` is the plugin around the library: it converts Binary Ninja's IL into the models,
answers the library's questions, carries out its decisions and registers the activities.
