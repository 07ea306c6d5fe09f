# Lucent Launcher

A Minecraft launcher whose decisions are verified with
[Verus](https://github.com/verus-lang/verus).

- `src/` is the library. Verus proves the contracts of its functions; those of the small
  wrappers around outside crates are trusted. It holds profile
  storage and editing, content management, mod repair, Modrinth requests, Microsoft
  sign-in, Forge installation, downloads, launch commands, the launch itself, and what
  the interface does on each event.
- `app/` is the program around it: the GTK window, files, processes, the network and
  the keyring. It performs the actions that the library asks for, and hands back how
  they went.
- `tests/` runs the library on concrete values.

## How the library is laid out

| Modules | Subject |
| --- | --- |
| `text`, `path`, `sorting`, `checksum`, `json`, `address` | texts, paths, orders, and the outside crates behind trusted contracts |
| `profile`, `storage`, `editor`, `color` | profiles, their document, their form and their card |
| `content`, `discovery`, `modrinth`, `repair`, `selection` | mods and shader packs |
| `session`, `auth`, `signin` | accounts |
| `atomic`, `download`, `progress`, `error` | files that appear whole or not at all |
| `classpath`, `command`, `runtime`, `maven`, `forge`, `launch` | installing and starting the game |
| `messages`, `ui` | events, and what the interface does about them |

Work that alternates with the outside world is a state machine: `start` gives the first
actions, and `step` takes a reply and gives the next ones. `RepairRun`, `ForgeRun`,
`LoginRun`, `ExchangeRun`, `RestoreRun`, `PlanRun`, `WriteRun`, `InstallRun` and
`LaunchService` are such machines.

Functions named `law_...` are theorems about several functions or several steps, such
as that a payload is verified before it is published, that a launch ends once, or that
saved profiles load unchanged.

Paths are texts with `/` between their parts.

## The window

The layout of the window is a GResource, `lucent-launcher.gresource`, which the build of
the program provides.
