# onboarding-tui

A terminal application that sets up a developer machine for the RFID Lab: it
detects the platform, scans for the lab's tools, and installs the missing ones.

The decisions are a verified library (`src/`, checked with Verus); the
terminal front end (`app/`) reads the machine, runs checks and installers on
worker threads, and draws the screens with ratatui.

| Module | Contents |
|---|---|
| `detect` | environment detection, platform label, WSL distro listing |
| `software` | the software registry and its resolution per environment |
| `app` | the screens as a state machine: keys and worker messages in, actions out |
| `laws` | properties that hold across key presses and messages |
| `exec` | command lines, check results, dry-run output, options |
| `view` | layout arithmetic and the text and style of every drawn line |
| `theme` | the Auburn color theme |
| `tasks` | the step-list installer's component definitions |
| `text` | character-level helpers and the decoders borrowed from std |

The registry, `software.json`, is read at start-up from the program's
directory or the working directory.
