# railway_export

Exports the configuration of a deployed service to a `railway.toml` or
`railway.json` file.

`src/` is the verified library:

- `select` chooses the workspace, project, environment and service, from the
  command line, the linked project, or by asking;
- `normalised` reduces a project to what the user may see;
- `manifest` and `config` put the exported configuration together from the
  project's details and the metadata of the first deployment
  fetched;
- `request` holds the backend queries;
- `command` drives the whole command as a sequence of actions and events;
- `laws` proves what holds across these parts;
- `json` and `text` state what is relied on of `serde_json` and of the standard
  library's lower casing; `search`, `model`, `details` and `error` hold the
  shared pieces.

`app/` is the command line, the terminal and the file around it. The
surrounding program supplies the backend by implementing `Host`.
