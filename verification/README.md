# biome_tools

Verified logic of Biome's formatter code generator, of its operating-system
file system, and of a few lint rules and parser checks.

- `src/` is the library, proved with Verus:
  - `node`, `language`: where the formatting rule of a grammar node type
    lives (dialect, concept, module name) and the identifiers generated
    code uses;
  - `repo`: the guard that refuses to overwrite files with uncommitted
    changes, from the git status of the working tree;
  - `module_index`, `codegen`: what one generation run writes, deletes and
    stages, and the `mod.rs` declarations it needs;
  - `fs`: path kinds from metadata, the traversal of one directory entry
    as a state machine, the parsing of `git diff` output;
  - `lint`, `binding`: the decisions of the lint rules and of the binding
    checks of the JavaScript parser;
  - `text`, `paths`, `order`: strings, path components and string order.
- `app/` is the command-line generator and the operating-system side of the
  file system: it reads the disk and git, runs `rustfmt`, writes, deletes
  and stages the files that the library's generation decides on, and runs
  the library's traversal state machine. The lint and parser decisions are
  library functions only: nothing in `app/` runs them.
- `tests/` exercise the library on concrete values.
