# msst-net-client-installer

Installer for the MSST-Net client: it finds the platform, downloads the core and a
controller from the latest release, registers the core as a system service, and
can also deploy the client with Docker Compose.

- `src/` is the library, verified with Verus: platform names (`detect`), release
  asset lookup (`github`), asset naming and planning (`plan`), the order of the
  install, update and removal work (`deploy`), controller kinds
  (`install`), the service steps for systemd, launchd and the Windows service
  manager, native packages and the AppImage launcher (`service`), the Docker rules and the order of the Docker operations (`docker`), the Wintun driver (`wintun`),
  the menus (`menu`) and string routines (`text`).
- `app/` is the command-line program around it: prompts, HTTP downloads, file
  system and process work.
- `tests/` exercises the library on concrete values.
