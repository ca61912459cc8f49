# pyenv_core

The decision logic of a native Python version manager (`pyenv`), written in Verus and proved
against its contracts: which runtime and version file govern a directory, how version files are
read and written, managed virtual environments under `<root>/venvs/<runtime>/<name>`, shell
integration code for PowerShell, CMD, POSIX shells and fish, shims and the `PATH` a shimmed
command runs with, host preflight checks, self-update and uninstall scripts, PEP 514 registry
entries, and what the desktop companion decides.

Every command is a function from an `AppContext` (the environment values the tool reads and a
snapshot of the relevant files and directories) to a report, plus a plan of what to write or run.
Nothing in `src/` touches the disk, the network or other processes.

Layout:

- `src/` the verified library, one module per area (`version`, `venv`, `shell`, `shim`,
  `runtime`, `preflight`, `self_update`, `windows_registry`, `desktop`, ...), with the laws
  that relate its functions as public proof functions (`law_*`).
- `tests/` tests on concrete values, run against the compiled library.
- `app/` the `pyenv` command line: it reads the system into a context, calls the library, carries
  out the plans (files, shims, processes, downloads) and prints the reports.
