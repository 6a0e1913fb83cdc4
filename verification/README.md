# omdocker

A terminal front end for the Docker daemon: lists of containers, images,
networks and volumes, container details and logs, the daemon's event stream,
resource statistics, a form to run images, shells into containers and a
two-panel file explorer between the host and a container or volume.

The crate is written in Verus.

- `src/` is the verified library. Key presses and mouse events become
  application events (`handlers`), events become a new state and a list of
  commands (`reducer`, `reducers`), and the rules in between are each a
  function with a contract: key bindings (`keymap`, `config`, `help`), the view
  stack (`mode`), list filtering and grouping (`resource`, `search`), directory
  listings and paths (`listing`, `paths`), log lines and their colours
  (`logstream`, `ansi`), search matches in log lines (`highlight`), the
  details text (`details`), the rows and titles of the containers table and
  the explorer panels (`table`), the container poller's failure rule
  (`poller`), release selection for updates (`update`) and small display
  rules (`ui`). Proof functions named
  `lemma_*` state the laws the library keeps, such as that every event keeps
  the state well formed and that sorting the statistics orders them without
  losing any.
- `app/` is the program around it: the terminal, the daemon connection
  (bollard), files, the clipboard, the configuration file and drawing with
  ratatui. It performs the commands the reducers return and feeds back what
  happened as events.
- `tests/` runs the library on concrete values.
