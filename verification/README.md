# oc_tool

A Windows tuning tool: a catalogue of system tweaks (registry values, model
specific registers, PowerShell scripts, user rights, power schemes, display
modes, processes and services), each of which can be read, applied and
reverted.

## Layout

- `src/` is the verified library, checked with Verus. It holds the catalogue
  of tweaks and every decision about them: which option a set of
  observations means, what an apply or a revert writes, how register masks
  and values are formed, how registry paths and values are parsed and
  encoded, how power-scheme and display readings are interpreted, and how a
  session of tweaks takes in the results of its tasks. Calls into `indexmap`
  and `widestring` stand behind small trusted wrappers whose contracts are
  stated in their doc comments.
- `tests/` runs the library on concrete values.
- `app/` is the command-line program around the library: it reads and writes
  the registry, power settings, display settings, processes, services, user
  rights and registers through the Windows API, runs PowerShell, and hands
  what it observed to the library.

## Laws

Among the properties proved in `src/`:

- the full table of tweaks holds every identifier exactly once, in
  identifier order (`tweaks::catalog::lemma_each_id_once`), and the five
  lists it is built from split the identifiers between them, so no tweak is
  dropped (`tweaks::catalog::lemma_lists_partition_ids`); the table holds
  exactly the entries of those lists (`tweaks::table::table_from_lists`);
- reverting a tweak performs the same step as applying its default option
  (`tweaks::plan::lemma_revert_applies_default`);
- reading a registry value or a register after writing it gives back what
  was written (`tweaks::registry::method::lemma_read_after_write`,
  `tweaks::msr::method::lemma_msr_read_after_write`), and after an option
  was written the state read back is that option
  (`tweaks::registry::method::lemma_state_read_back_after_apply`,
  `tweaks::powershell::lemma_superfetch_read_back`);
- encoding and decoding registry DWORDs, and splitting and joining register
  halves, are inverse to each other.

Where the program alternates between the machine and a decision, the
decision is a verified step function that `app/` drives: applying a registry
option (with a rollback to the default option when a write fails) and
writing register bits core by core with a read-back check.
