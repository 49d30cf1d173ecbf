# simple_deployer

A blue/green deployment controller for a Docker host: it keeps a *main*
and a *rollback* container of one image running behind an nginx container,
checks a registry for newer images, replaces outdated containers, and moves
nginx's traffic to whichever container is healthy.

The decisions are a Verus-verified library (`src/`); the program that talks
to Docker, the registry and the file system is ordinary Rust (`app/`).

## Library modules

- `text` – splitting at a separator, trimming, comparison, lower case.
- `role` – container roles (`main`, `dev`, `rollback`, `nginx`) and the
  controller's record of a container.
- `status`, `logs`, `slots` – the controller's state: deployment status,
  the queue of container output, the container slots, and the commands that
  retarget nginx.
- `config` – the INI configuration with its defaults and refusals.
- `image`, `registry`, `containers` – searches through what the engine and
  the registry list; registry requests.
- `schedule` – when update and health checks are due (interval or cron).
- `control` – health-check decisions, update decisions and steps,
  container creation plans.
- `logging` – log file paths and container log entries.
- `laws` – properties that span several functions, proved.

## Program

`app/main.rs` reads the configuration file named on the command line, logs
in to the registry, pulls and creates the containers and runs the control
loop.
